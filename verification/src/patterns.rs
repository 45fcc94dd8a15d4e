//! The pattern engine: one cursor per LED plays a stored pattern, element by
//! element, and fills the frame buffer.

use crate::bounded::{
    elements_clone, elements_get, elements_len, elements_new, elements_push, pattern_elements,
    patterns_get, patterns_len, patterns_new, patterns_push, patterns_set, stored_patterns,
};
use crate::display::{led_off, Led, LedBuffer, LED_COUNT};
use crate::hexcore_errors::PatternError;
use vstd::prelude::*;

verus! {

/// Largest number of elements in one pattern.
pub const MAX_PATTERN_ELEMENTS: usize = 16;

/// Number of patterns an engine stores: one per LED.
pub const MAX_PATTERN_COUNT: usize = LED_COUNT;

/// How an element of a pattern drives its LED.
#[derive(Copy, Clone, Debug, PartialEq, Eq, Structural)]
pub enum PatternId {
    /// The element's colour, all the time.
    Solid,
    /// Dark for the first half of the duration, the element's colour after.
    Blink,
    /// A fade from the colour of the element before to the element's colour.
    Fade,
    /// Reserved: leaves the LED as it is.
    Heartbeat,
    /// Reserved: leaves the LED as it is.
    SOS,
}

impl Default for PatternId {
    fn default() -> (id: PatternId)
        ensures
            id == PatternId::Solid,
    {
        PatternId::Solid
    }
}

/// One step of a pattern: what to show, in which colour, for how many
/// microseconds.
#[derive(Copy, Clone, Debug, PartialEq, Eq, Structural)]
pub struct PatternElement {
    pub pattern: PatternId,
    pub color: Led,
    pub duration: u32,
}

impl Default for PatternElement {
    fn default() -> (element: PatternElement)
        ensures
            element == (PatternElement {
                pattern: PatternId::Solid,
                color: led_off(),
                duration: 0,
            }),
    {
        PatternElement { pattern: PatternId::Solid, color: Led::off(), duration: 0 }
    }
}

/// A sequence of at most `MAX_PATTERN_ELEMENTS` elements.
pub struct Pattern {
    data: heapless::Vec<PatternElement, MAX_PATTERN_ELEMENTS>,
}

impl View for Pattern {
    type V = Seq<PatternElement>;

    closed spec fn view(&self) -> Seq<PatternElement> {
        pattern_elements(self.data)
    }
}

impl Clone for Pattern {
    fn clone(&self) -> (copy: Pattern)
        ensures
            copy@ == self@,
    {
        Pattern { data: elements_clone(&self.data) }
    }
}

impl Default for Pattern {
    fn default() -> (pattern: Pattern)
        ensures
            pattern@ == Seq::<PatternElement>::empty(),
    {
        Pattern::new()
    }
}

impl Pattern {
    /// The empty pattern.
    pub fn new() -> (pattern: Pattern)
        ensures
            pattern@ == Seq::<PatternElement>::empty(),
    {
        Pattern { data: elements_new() }
    }

    /// Appends `n`. A pattern that is full stays as it is and reports
    /// `PatternSizeError`.
    pub fn next(&mut self, n: PatternElement) -> (appended: Result<(), PatternError>)
        ensures
            old(self)@.len() < MAX_PATTERN_ELEMENTS ==> appended is Ok
                && final(self)@ == old(self)@.push(n),
            old(self)@.len() >= MAX_PATTERN_ELEMENTS ==> appended is Err
                && appended->Err_0 == PatternError::PatternSizeError
                && final(self)@ == old(self)@,
    {
        match elements_push(&mut self.data, n) {
            Ok(()) => Ok(()),
            Err(_) => Err(PatternError::PatternSizeError),
        }
    }

    /// Number of elements.
    pub fn len(&self) -> (len: usize)
        ensures
            len == self@.len(),
            len <= MAX_PATTERN_ELEMENTS,
    {
        elements_len(&self.data)
    }

    /// The element at `idx`, if there is one.
    pub fn get(&self, idx: usize) -> (element: Option<PatternElement>)
        ensures
            idx < self@.len() ==> element == Some(self@[idx as int]),
            idx >= self@.len() ==> element is None,
    {
        if idx < elements_len(&self.data) {
            Some(elements_get(&self.data, idx))
        } else {
            None
        }
    }
}

/// Builds a pattern element by element.
pub struct PatternBuilder {
    buffer: Pattern,
}

impl View for PatternBuilder {
    type V = Seq<PatternElement>;

    closed spec fn view(&self) -> Seq<PatternElement> {
        self.buffer@
    }
}

impl PatternBuilder {
    /// A builder that holds no element yet.
    pub fn new() -> (builder: PatternBuilder)
        ensures
            builder@ == Seq::<PatternElement>::empty(),
    {
        PatternBuilder { buffer: Pattern::new() }
    }

    /// Appends `n`; once the pattern is full, further elements are left out.
    pub fn then(self, n: PatternElement) -> (builder: PatternBuilder)
        ensures
            self@.len() < MAX_PATTERN_ELEMENTS ==> builder@ == self@.push(n),
            self@.len() >= MAX_PATTERN_ELEMENTS ==> builder@ == self@,
    {
        let mut buffer = self.buffer;
        let _ = buffer.next(n);
        PatternBuilder { buffer }
    }

    /// The pattern built so far.
    pub fn finish(self) -> (pattern: Pattern)
        ensures
            pattern@ == self@,
    {
        self.buffer
    }
}

/// Where one LED stands in its pattern.
#[derive(Copy, Clone, Debug, PartialEq, Eq, Structural)]
pub struct PatternCursor {
    /// The element being played.
    pub element_index: usize,
    /// The slot of the pattern being played.
    pub pattern_index: usize,
    /// The colour of the element played before, from which a fade starts.
    pub last_color: Led,
    /// Microseconds spent on the element so far.
    pub elapsed: u32,
    /// Whether the pattern starts over after its last element.
    pub auto_restart: bool,
    /// Whether the cursor runs.
    pub enabled: bool,
}

/// A cursor at rest on the first element of the first pattern.
pub open spec fn cursor_at_rest() -> PatternCursor {
    PatternCursor {
        element_index: 0,
        pattern_index: 0,
        last_color: led_off(),
        elapsed: 0,
        auto_restart: false,
        enabled: false,
    }
}

impl Default for PatternCursor {
    fn default() -> (cursor: PatternCursor)
        ensures
            cursor == cursor_at_rest(),
    {
        PatternCursor {
            element_index: 0,
            pattern_index: 0,
            last_color: Led::off(),
            elapsed: 0,
            auto_restart: false,
            enabled: false,
        }
    }
}

/// The element a cursor is on, if its pattern is stored and reaches that far.
pub open spec fn current_element(
    cursor: PatternCursor,
    patterns: Seq<Seq<PatternElement>>,
) -> Option<PatternElement> {
    if cursor.pattern_index < patterns.len() && cursor.element_index
        < patterns[cursor.pattern_index as int].len() {
        Some(patterns[cursor.pattern_index as int][cursor.element_index as int])
    } else {
        None
    }
}

/// The time spent on an element after `delta` more microseconds, held at the
/// element's duration.
pub open spec fn clamped_elapsed(elapsed: u32, delta: u32, duration: u32) -> u32 {
    if elapsed + delta > duration {
        duration
    } else {
        (elapsed + delta) as u32
    }
}

/// The colour an element gives its LED `elapsed` microseconds in, where
/// `last_color` is the colour a fade starts from and `shown` the colour the
/// LED has now.
pub open spec fn element_color(
    element: PatternElement,
    last_color: Led,
    elapsed: u32,
    shown: Led,
) -> Led {
    match element.pattern {
        PatternId::Solid => element.color,
        PatternId::Blink => if elapsed < element.duration / 2 {
            led_off()
        } else {
            element.color
        },
        PatternId::Fade => last_color.faded(element.color, elapsed, element.duration),
        PatternId::Heartbeat => shown,
        PatternId::SOS => shown,
    }
}

/// The cursor after `delta` more microseconds on `element`, in a pattern of
/// `length` elements. An element that has run its duration hands over to the
/// next one, the last to the first; without `auto_restart` the cursor stops on
/// the last element instead.
pub open spec fn cursor_after(
    cursor: PatternCursor,
    element: PatternElement,
    length: nat,
    delta: u32,
) -> PatternCursor {
    let elapsed = clamped_elapsed(cursor.elapsed, delta, element.duration);
    if elapsed < element.duration {
        PatternCursor { elapsed, ..cursor }
    } else if cursor.element_index + 1 < length {
        PatternCursor {
            element_index: (cursor.element_index + 1) as usize,
            last_color: element.color,
            elapsed: 0,
            ..cursor
        }
    } else if cursor.auto_restart {
        PatternCursor { element_index: 0, last_color: element.color, elapsed: 0, ..cursor }
    } else {
        PatternCursor { elapsed, enabled: false, ..cursor }
    }
}

/// One cursor after a tick of `delta` microseconds: a cursor that is disabled,
/// or on no element, stays as it is.
pub open spec fn step_cursor(
    cursor: PatternCursor,
    patterns: Seq<Seq<PatternElement>>,
    delta: u32,
) -> PatternCursor {
    match current_element(cursor, patterns) {
        Some(element) if cursor.enabled => cursor_after(
            cursor,
            element,
            patterns[cursor.pattern_index as int].len(),
            delta,
        ),
        _ => cursor,
    }
}

/// The colour of one LED after a tick of `delta` microseconds: the LED of a
/// cursor that is disabled, or on no element, keeps the colour `shown`.
pub open spec fn step_color(
    cursor: PatternCursor,
    patterns: Seq<Seq<PatternElement>>,
    delta: u32,
    shown: Led,
) -> Led {
    match current_element(cursor, patterns) {
        Some(element) if cursor.enabled => element_color(
            element,
            cursor.last_color,
            clamped_elapsed(cursor.elapsed, delta, element.duration),
            shown,
        ),
        _ => shown,
    }
}

/// The time spent on an element after `delta` more microseconds, held at the
/// element's duration.
pub fn clamp_elapsed(elapsed: u32, delta: u32, duration: u32) -> (clamped: u32)
    ensures
        clamped == clamped_elapsed(elapsed, delta, duration),
{
    let total: u64 = elapsed as u64 + delta as u64;
    if total > duration as u64 {
        duration
    } else {
        total as u32
    }
}

/// The colour `element` gives its LED `elapsed` microseconds in.
pub fn render_element(element: PatternElement, last_color: Led, elapsed: u32, shown: Led) -> (color:
    Led)
    ensures
        color == element_color(element, last_color, elapsed, shown),
{
    match element.pattern {
        PatternId::Solid => element.color,
        PatternId::Blink => {
            let duration: u32 = element.duration;
            assert(duration >> 1 == duration / 2) by (bit_vector);
            if elapsed < (duration >> 1) {
                Led::off()
            } else {
                element.color
            }
        },
        PatternId::Fade => {
            let mut from = last_color;
            from.interpolate(element.color, elapsed, element.duration)
        },
        PatternId::Heartbeat => shown,
        PatternId::SOS => shown,
    }
}

/// The cursor after `delta` more microseconds on `element`, in a pattern of
/// `length` elements.
pub fn advance_cursor(
    cursor: PatternCursor,
    element: PatternElement,
    length: usize,
    delta: u32,
) -> (next: PatternCursor)
    requires
        cursor.element_index < length,
    ensures
        next == cursor_after(cursor, element, length as nat, delta),
{
    let elapsed: u32 = clamp_elapsed(cursor.elapsed, delta, element.duration);
    let mut next = cursor;
    next.elapsed = elapsed;
    if elapsed >= element.duration {
        if cursor.element_index + 1 < length {
            next.element_index = cursor.element_index + 1;
            next.last_color = element.color;
            next.elapsed = 0;
        } else if cursor.auto_restart {
            next.element_index = 0;
            next.last_color = element.color;
            next.elapsed = 0;
        } else {
            next.enabled = false;
        }
    }
    next
}

/// The pattern engine of one cell: a cursor and an output colour per LED, and
/// the stored patterns the cursors play.
pub struct PatternEngine {
    cursors: [PatternCursor; LED_COUNT],
    patterns: heapless::Vec<Pattern, MAX_PATTERN_COUNT>,
    output: LedBuffer,
}

impl Default for PatternEngine {
    fn default() -> (engine: PatternEngine)
        ensures
            engine.is_fresh(),
    {
        PatternEngine::new()
    }
}

impl PatternEngine {
    /// The cursors, by LED.
    pub closed spec fn cursors(&self) -> Seq<PatternCursor> {
        self.cursors@
    }

    /// The stored patterns, by slot.
    pub closed spec fn patterns(&self) -> Seq<Seq<PatternElement>> {
        stored_patterns(self.patterns).map_values(|pattern: Pattern| pattern@)
    }

    /// The output colours, by LED.
    pub closed spec fn output(&self) -> Seq<Led> {
        self.output@
    }

    /// An engine as `new` makes it: every cursor at rest, every slot holding
    /// the empty pattern, every LED dark.
    pub open spec fn is_fresh(&self) -> bool {
        &&& self.cursors() == Seq::new(LED_COUNT as nat, |i: int| cursor_at_rest())
        &&& self.patterns() == Seq::new(
            MAX_PATTERN_COUNT as nat,
            |i: int| Seq::<PatternElement>::empty(),
        )
        &&& self.output() == Seq::new(LED_COUNT as nat, |i: int| led_off())
    }

    /// There is one cursor and one output colour per LED.
    pub proof fn lemma_one_per_led(&self)
        ensures
            self.cursors().len() == LED_COUNT,
            self.output().len() == LED_COUNT,
    {
    }

    /// An engine with every cursor at rest, `MAX_PATTERN_COUNT` empty
    /// patterns and a dark output.
    pub fn new() -> (engine: PatternEngine)
        ensures
            engine.is_fresh(),
    {
        let mut init = patterns_new();
        let mut slot: usize = 0;
        while slot < MAX_PATTERN_COUNT
            invariant
                slot <= MAX_PATTERN_COUNT,
                stored_patterns(init).len() == slot,
                forall|i: int|
                    0 <= i < slot ==> (#[trigger] stored_patterns(init)[i])@
                        == Seq::<PatternElement>::empty(),
            decreases MAX_PATTERN_COUNT - slot,
        {
            let _ = patterns_push(&mut init, Pattern::default());
            slot = slot + 1;
        }
        let engine = PatternEngine {
            cursors: [PatternCursor::default();LED_COUNT],
            patterns: init,
            output: [Led::default();LED_COUNT],
        };
        assert(engine.cursors() =~= Seq::new(LED_COUNT as nat, |i: int| cursor_at_rest()));
        assert(engine.patterns() =~= Seq::new(
            MAX_PATTERN_COUNT as nat,
            |i: int| Seq::<PatternElement>::empty(),
        ));
        assert(engine.output() =~= Seq::new(LED_COUNT as nat, |i: int| led_off()));
        engine
    }

    /// Enables every cursor and puts it on the first element of the first
    /// pattern, with a dark colour behind it.
    pub fn start(&mut self)
        ensures
            final(self).cursors().len() == LED_COUNT,
            forall|i: int|
                0 <= i < LED_COUNT ==> #[trigger] final(self).cursors()[i] == (PatternCursor {
                    enabled: true,
                    pattern_index: 0,
                    element_index: 0,
                    last_color: led_off(),
                    ..old(self).cursors()[i]
                }),
            final(self).patterns() == old(self).patterns(),
            final(self).output() == old(self).output(),
    {
        let mut idx: usize = 0;
        while idx < LED_COUNT
            invariant
                idx <= LED_COUNT,
                self.patterns == old(self).patterns,
                self.output == old(self).output,
                forall|i: int|
                    0 <= i < idx ==> #[trigger] self.cursors[i] == (PatternCursor {
                        enabled: true,
                        pattern_index: 0,
                        element_index: 0,
                        last_color: led_off(),
                        ..old(self).cursors[i]
                    }),
                forall|i: int| idx <= i < LED_COUNT ==> self.cursors[i] == old(self).cursors[i],
            decreases LED_COUNT - idx,
        {
            let mut cursor = self.cursors[idx];
            cursor.enabled = true;
            cursor.pattern_index = 0;
            cursor.element_index = 0;
            cursor.last_color = Led::off();
            self.cursors[idx] = cursor;
            idx = idx + 1;
        }
    }

    /// Advances every enabled cursor by `delta` microseconds and gives each
    /// LED the colour of its cursor's element. Returns the output colours.
    pub fn run(&mut self, delta: u32) -> (frame: LedBuffer)
        ensures
            final(self).cursors().len() == LED_COUNT,
            final(self).output().len() == LED_COUNT,
            forall|i: int|
                0 <= i < LED_COUNT ==> #[trigger] final(self).cursors()[i] == step_cursor(
                    old(self).cursors()[i],
                    old(self).patterns(),
                    delta,
                ),
            forall|i: int|
                0 <= i < LED_COUNT ==> #[trigger] final(self).output()[i] == step_color(
                    old(self).cursors()[i],
                    old(self).patterns(),
                    delta,
                    old(self).output()[i],
                ),
            final(self).patterns() == old(self).patterns(),
            frame@ == final(self).output(),
    {
        let ghost patterns = self.patterns();
        let stored: usize = patterns_len(&self.patterns);
        let mut idx: usize = 0;
        while idx < LED_COUNT
            invariant
                idx <= LED_COUNT,
                self.patterns == old(self).patterns,
                patterns == old(self).patterns(),
                stored == patterns.len(),
                forall|i: int|
                    0 <= i < idx ==> #[trigger] self.cursors[i] == step_cursor(
                        old(self).cursors[i],
                        patterns,
                        delta,
                    ),
                forall|i: int|
                    0 <= i < idx ==> #[trigger] self.output[i] == step_color(
                        old(self).cursors[i],
                        patterns,
                        delta,
                        old(self).output[i],
                    ),
                forall|i: int| idx <= i < LED_COUNT ==> self.cursors[i] == old(self).cursors[i],
                forall|i: int| idx <= i < LED_COUNT ==> self.output[i] == old(self).output[i],
            decreases LED_COUNT - idx,
        {
            let cursor = self.cursors[idx];
            if cursor.enabled && cursor.pattern_index < stored {
                let pattern: &Pattern = patterns_get(&self.patterns, cursor.pattern_index);
                let length: usize = pattern.len();
                if cursor.element_index < length {
                    let current_element: PatternElement = elements_get(
                        &pattern.data,
                        cursor.element_index,
                    );
                    let elapsed: u32 = clamp_elapsed(
                        cursor.elapsed,
                        delta,
                        current_element.duration,
                    );
                    let color = render_element(
                        current_element,
                        cursor.last_color,
                        elapsed,
                        self.output[idx],
                    );
                    let next = advance_cursor(cursor, current_element, length, delta);
                    self.output[idx] = color;
                    self.cursors[idx] = next;
                }
            }
            idx = idx + 1;
        }
        self.output
    }

    /// The output colours, by LED.
    pub fn get_output_buffer(&self) -> (frame: LedBuffer)
        ensures
            frame@ == self.output(),
    {
        self.output
    }

    /// The cursor of LED `idx`, if there is one.
    pub fn cursor(&self, idx: usize) -> (cursor: Option<PatternCursor>)
        ensures
            idx < LED_COUNT ==> cursor == Some(self.cursors()[idx as int]),
            idx >= LED_COUNT ==> cursor is None,
    {
        if idx < LED_COUNT {
            Some(self.cursors[idx])
        } else {
            None
        }
    }

    /// Number of stored patterns.
    pub fn pattern_count(&self) -> (count: usize)
        ensures
            count == self.patterns().len(),
            count <= MAX_PATTERN_COUNT,
    {
        patterns_len(&self.patterns)
    }

    /// Stores `pattern` in slot `at`. Where there is no such slot the engine
    /// stays as it is and reports `InvalidPatternError`.
    pub fn set_pattern(&mut self, at: usize, pattern: Pattern) -> (stored: Result<(), PatternError>)
        ensures
            at < old(self).patterns().len() ==> stored is Ok
                && final(self).patterns() == old(self).patterns().update(at as int, pattern@),
            at >= old(self).patterns().len() ==> stored is Err
                && stored->Err_0 == PatternError::InvalidPatternError
                && final(self).patterns() == old(self).patterns(),
            final(self).cursors() == old(self).cursors(),
            final(self).output() == old(self).output(),
    {
        if at < patterns_len(&self.patterns) {
            patterns_set(&mut self.patterns, at, pattern);
            assert(self.patterns() =~= old(self).patterns().update(at as int, pattern@));
            Ok(())
        } else {
            Err(PatternError::InvalidPatternError)
        }
    }

    /// Puts cursor `cursor_idx` on the pattern in slot `pattern_idx` and sets
    /// whether it starts over. Reports `InvalidCursorError` where there is no
    /// such cursor, else `InvalidPatternError` where there is no such pattern;
    /// the engine then stays as it is. No other cursor is touched.
    pub fn set_cursor_to_pattern(
        &mut self,
        cursor_idx: usize,
        pattern_idx: usize,
        restart: bool,
    ) -> (bound: Result<(), PatternError>)
        ensures
            cursor_idx >= LED_COUNT ==> bound is Err
                && bound->Err_0 == PatternError::InvalidCursorError
                && final(self).cursors() == old(self).cursors(),
            cursor_idx < LED_COUNT && pattern_idx >= old(self).patterns().len() ==> bound is Err
                && bound->Err_0 == PatternError::InvalidPatternError
                && final(self).cursors() == old(self).cursors(),
            cursor_idx < LED_COUNT && pattern_idx < old(self).patterns().len() ==> bound is Ok
                && final(self).cursors() == old(self).cursors().update(
                cursor_idx as int,
                PatternCursor {
                    pattern_index: pattern_idx,
                    auto_restart: restart,
                    ..old(self).cursors()[cursor_idx as int]
                },
            ),
            final(self).patterns() == old(self).patterns(),
            final(self).output() == old(self).output(),
    {
        if cursor_idx < LED_COUNT {
            if pattern_idx < patterns_len(&self.patterns) {
                let mut cursor = self.cursors[cursor_idx];
                cursor.pattern_index = pattern_idx;
                cursor.auto_restart = restart;
                self.cursors[cursor_idx] = cursor;
                Ok(())
            } else {
                Err(PatternError::InvalidPatternError)
            }
        } else {
            Err(PatternError::InvalidCursorError)
        }
    }
}

/// Law of the solid element: it shows its own colour whatever time has
/// passed, whatever came before and whatever the LED shows.
pub proof fn lemma_solid_shows_color(
    element: PatternElement,
    last_color: Led,
    elapsed: u32,
    shown: Led,
)
    requires
        element.pattern == PatternId::Solid,
    ensures
        element_color(element, last_color, elapsed, shown) == element.color,
{
}

/// Law of the blinking element: dark before half its duration has passed, its
/// own colour from then on.
pub proof fn lemma_blink_halves(element: PatternElement, last_color: Led, elapsed: u32, shown: Led)
    requires
        element.pattern == PatternId::Blink,
    ensures
        elapsed < element.duration / 2 ==> element_color(element, last_color, elapsed, shown)
            == led_off(),
        elapsed >= element.duration / 2 ==> element_color(element, last_color, elapsed, shown)
            == element.color,
{
}

/// Law of the running cursor: after a tick a cursor never holds more elapsed
/// time than its element lasts, however long the tick was.
pub proof fn lemma_elapsed_stays_within_duration(
    cursor: PatternCursor,
    element: PatternElement,
    length: nat,
    delta: u32,
)
    ensures
        cursor_after(cursor, element, length, delta).elapsed <= element.duration,
{
}

} // verus!
