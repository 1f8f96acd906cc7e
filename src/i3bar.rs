//! The bar protocol: the header, the status line of each tick, the
//! output stream, and the click objects that the host sends back.

use vstd::prelude::*;

use crate::block::{BlockError, BlockState, ClickEvent, Dimensions, MouseButton, Position};
use crate::text::{decimal, join_with, push_decimal, trim_commas, trim_commas_of, unsigned_value, parse_unsigned};

verus! {

/// What `serde_json::to_string` writes for a string: the JSON string literal.
pub uninterp spec fn json_string_of(s: Seq<char>) -> Seq<char>;

/// Text without control characters, so without line breaks: it stays on one line.
pub open spec fn no_control_chars(s: Seq<char>) -> bool {
    forall|i: int| 0 <= i < s.len() ==> #[trigger] s[i] >= ' '
}

proof fn lemma_no_control_concat(a: Seq<char>, b: Seq<char>)
    requires
        no_control_chars(a),
        no_control_chars(b),
    ensures
        no_control_chars(a + b),
{
    assert forall|i: int| 0 <= i < (a + b).len() implies #[trigger] (a + b)[i] >= ' ' by {
        if i < a.len() {
            assert((a + b)[i] == a[i]);
        } else {
            assert((a + b)[i] == b[i - a.len()]);
        }
    }
}

/// A character that a JSON string literal holds as it is.
pub open spec fn is_plain_json_char(c: char) -> bool {
    c != '"' && c != '\\' && c >= ' '
}

/// `s` between double quotes.
pub open spec fn quoted(s: Seq<char>) -> Seq<char> {
    seq!['"'] + s + seq!['"']
}

/// Relies on `serde_json::to_string` for a `str`: the JSON string literal
/// of `s`; characters other than `"`, `\` and control characters are written
/// unchanged between the quotes, and control characters are escaped, so
/// the literal holds none. Writing into its in-memory buffer cannot fail.
#[verifier::external_body]
fn json_string(s: &str) -> (r: String)
    ensures
        r@ == json_string_of(s@),
        no_control_chars(r@),
        (forall|i: int| 0 <= i < s@.len() ==> is_plain_json_char(#[trigger] s@[i]))
            ==> r@ == quoted(s@),
{
    serde_json::to_string(s).expect("a str always serialises")
}

/// The header line that opens the stream.
pub open spec fn header_text(click_events: bool) -> Seq<char> {
    "{\"version\":1,\"click_events\":"@ + (if click_events { "true"@ } else { "false"@ }) + "}"@
}

pub fn get_header_json(allow_click_events: bool) -> (r: String)
    ensures
        r@ == header_text(allow_click_events),
{
    let mut r = String::from_str("{\"version\":1,\"click_events\":");
    if allow_click_events {
        r.append("true");
    } else {
        r.append("false");
    }
    r.append("}");
    r
}

/// One block of a status line: the text, its markup mode and its slot.
#[derive(Debug)]
pub struct BarBlock {
    pub full_text: String,
    pub markup: String,
    pub instance: String,
}

impl View for BarBlock {
    type V = (Seq<char>, Seq<char>, Seq<char>);

    open spec fn view(&self) -> (Seq<char>, Seq<char>, Seq<char>) {
        (self.full_text@, self.markup@, self.instance@)
    }
}

/// What a sample shows: its text, or nothing where it failed.
pub open spec fn sample_view(r: Result<BlockState, BlockError>) -> Option<Seq<char>> {
    match r {
        Ok(st) => Some(st@),
        Err(_) => None,
    }
}

pub open spec fn sample_views(samples: Seq<Result<BlockState, BlockError>>) -> Seq<Option<Seq<char>>> {
    samples.map_values(|r: Result<BlockState, BlockError>| sample_view(r))
}

/// The slots whose sample succeeded, in slot order.
pub open spec fn shown_slots(sv: Seq<Option<Seq<char>>>) -> Seq<int>
    decreases sv.len(),
{
    if sv.len() == 0 {
        Seq::empty()
    } else {
        let rest = shown_slots(sv.drop_last());
        if sv.last() is Some {
            rest.push(sv.len() - 1)
        } else {
            rest
        }
    }
}

/// The number of slots whose sample succeeded.
pub open spec fn count_shown(sv: Seq<Option<Seq<char>>>) -> nat
    decreases sv.len(),
{
    if sv.len() == 0 {
        0
    } else {
        count_shown(sv.drop_last()) + if sv.last() is Some { 1nat } else { 0nat }
    }
}

/// The block of slot `i`.
pub open spec fn block_of(sv: Seq<Option<Seq<char>>>, i: int) -> (Seq<char>, Seq<char>, Seq<char>) {
    (sv[i]->Some_0, "pango"@, decimal(i as nat))
}

/// The blocks of one tick: one per successful sample, in slot order.
pub open spec fn shown_blocks(sv: Seq<Option<Seq<char>>>) -> Seq<(Seq<char>, Seq<char>, Seq<char>)> {
    shown_slots(sv).map_values(|i: int| block_of(sv, i))
}

/// The JSON object of one block.
pub open spec fn block_text(b: (Seq<char>, Seq<char>, Seq<char>)) -> Seq<char> {
    "{\"full_text\":"@ + json_string_of(b.0) + ",\"markup\":"@ + json_string_of(b.1)
        + ",\"instance\":"@ + json_string_of(b.2) + "}"@
}

/// The JSON array of a list of blocks.
pub open spec fn array_text(bs: Seq<(Seq<char>, Seq<char>, Seq<char>)>) -> Seq<char> {
    "["@ + join_with(bs.map_values(|b: (Seq<char>, Seq<char>, Seq<char>)| block_text(b)), ","@)
        + "]"@
}

/// The status line of one tick, without the separator that follows it.
pub open spec fn tick_text(sv: Seq<Option<Seq<char>>>) -> Seq<char> {
    array_text(shown_blocks(sv))
}

proof fn lemma_shown_slots_bounded(sv: Seq<Option<Seq<char>>>)
    ensures
        forall|k: int| 0 <= k < shown_slots(sv).len()
            ==> 0 <= #[trigger] shown_slots(sv)[k] < sv.len() && sv[shown_slots(sv)[k]] is Some,
    decreases sv.len(),
{
    if sv.len() > 0 {
        lemma_shown_slots_bounded(sv.drop_last());
        let rest = shown_slots(sv.drop_last());
        assert forall|k: int| 0 <= k < shown_slots(sv).len()
            implies 0 <= #[trigger] shown_slots(sv)[k] < sv.len() && sv[shown_slots(sv)[k]] is Some by {
            if k < rest.len() {
                assert(shown_slots(sv)[k] == rest[k]);
                assert(sv.drop_last()[rest[k]] == sv[rest[k]]);
            }
        }
    }
}

/// Turns the samples of one tick into blocks: one for each sample that
/// succeeded, in slot order, with its slot as the instance.
pub fn convert_blocks_to_bar_blocks(sources: &Vec<Result<BlockState, BlockError>>) -> (r: Vec<BarBlock>)
    ensures
        r@.map_values(|b: BarBlock| b@) == shown_blocks(sample_views(sources@)),
{
    let ghost sv = sample_views(sources@);
    let mut bar_blocks: Vec<BarBlock> = Vec::new();
    let mut i: usize = 0;
    while i < sources.len()
        invariant
            i <= sources.len(),
            sv == sample_views(sources@),
            bar_blocks@.map_values(|b: BarBlock| b@) == shown_blocks(sv.subrange(0, i as int)),
        decreases sources.len() - i,
    {
        let ghost pre = sv.subrange(0, i as int);
        let ghost post = sv.subrange(0, i + 1);
        assert(post.drop_last() =~= pre);
        proof {
            lemma_shown_slots_bounded(pre);
        }
        assert forall|k: int| 0 <= k < shown_slots(pre).len()
            implies block_of(post, #[trigger] shown_slots(pre)[k]) == block_of(pre, shown_slots(pre)[k]) by {
            assert(post[shown_slots(pre)[k]] == pre[shown_slots(pre)[k]]);
        }
        match &sources[i] {
            Ok(st) => {
                let mut instance = String::new();
                push_decimal(&mut instance, i as u128);
                let block = BarBlock {
                    full_text: st.text().clone(),
                    markup: String::from_str("pango"),
                    instance,
                };
                assert(post.last() == Some(st@));
                assert(shown_slots(post) == shown_slots(pre).push(i as int));
                assert(block@ == block_of(post, i as int));
                let ghost old_views = bar_blocks@.map_values(|b: BarBlock| b@);
                bar_blocks.push(block);
                let ghost new_views = bar_blocks@.map_values(|b: BarBlock| b@);
                assert forall|k: int| 0 <= k < new_views.len() implies new_views[k] == shown_blocks(post)[k] by {
                    if k < old_views.len() {
                        assert(new_views[k] == old_views[k]);
                        assert(shown_slots(post)[k] == shown_slots(pre)[k]);
                    }
                }
                assert(old_views.len() == shown_slots(pre).len());
                assert(new_views.len() == shown_blocks(post).len());
                assert(new_views =~= shown_blocks(post));
            },
            Err(_) => {
                assert(bar_blocks@.map_values(|b: BarBlock| b@) =~= shown_blocks(post));
            },
        }
        i = i + 1;
    }
    assert(sv.subrange(0, i as int) =~= sv);
    bar_blocks
}

/// The JSON object of one block.
pub fn bar_block_json(block: &BarBlock) -> (r: String)
    ensures
        r@ == block_text(block@),
        no_control_chars(r@),
{
    proof {
        reveal_strlit("{\"full_text\":");
        reveal_strlit(",\"markup\":");
        reveal_strlit(",\"instance\":");
        reveal_strlit("}");
    }
    let mut r = String::from_str("{\"full_text\":");
    assert(no_control_chars(r@));
    let full = json_string(block.full_text.as_str());
    proof { lemma_no_control_concat(r@, full@); }
    r.append(full.as_str());
    proof { lemma_no_control_concat(r@, ",\"markup\":"@); }
    r.append(",\"markup\":");
    let markup = json_string(block.markup.as_str());
    proof { lemma_no_control_concat(r@, markup@); }
    r.append(markup.as_str());
    proof { lemma_no_control_concat(r@, ",\"instance\":"@); }
    r.append(",\"instance\":");
    let instance = json_string(block.instance.as_str());
    proof { lemma_no_control_concat(r@, instance@); }
    r.append(instance.as_str());
    proof { lemma_no_control_concat(r@, "}"@); }
    r.append("}");
    r
}

/// The JSON array of `blocks`, in their order.
pub fn bar_blocks_to_json(blocks: &Vec<BarBlock>) -> (r: String)
    ensures
        r@ == array_text(blocks@.map_values(|b: BarBlock| b@)),
        no_control_chars(r@),
        r@.len() >= 2 && r@[0] == '[' && r@.last() == ']',
{
    proof {
        reveal_strlit(",");
        reveal_strlit("[");
        reveal_strlit("]");
    }
    let ghost views = blocks@.map_values(|b: BarBlock| b@);
    let ghost texts = views.map_values(|b: (Seq<char>, Seq<char>, Seq<char>)| block_text(b));
    let mut body = String::new();
    let mut i: usize = 0;
    while i < blocks.len()
        invariant
            i <= blocks.len(),
            views == blocks@.map_values(|b: BarBlock| b@),
            texts == views.map_values(|b: (Seq<char>, Seq<char>, Seq<char>)| block_text(b)),
            body@ == join_with(texts.subrange(0, i as int), ","@),
            no_control_chars(body@),
            no_control_chars(","@),
        decreases blocks.len() - i,
    {
        assert(texts.subrange(0, i + 1).drop_last() =~= texts.subrange(0, i as int));
        if i > 0 {
            proof { lemma_no_control_concat(body@, ","@); }
            body.append(",");
        }
        let one = bar_block_json(&blocks[i]);
        proof { lemma_no_control_concat(body@, one@); }
        body.append(one.as_str());
        i = i + 1;
    }
    assert(texts.subrange(0, i as int) =~= texts);
    let mut r = String::from_str("[");
    proof { lemma_no_control_concat(r@, body@); }
    r.append(body.as_str());
    proof { lemma_no_control_concat(r@, "]"@); }
    r.append("]");
    r
}

/// The status line of one tick, from each slot's sample in slot order.
pub fn samples_to_json(samples: &Vec<Result<BlockState, BlockError>>) -> (r: String)
    ensures
        r@ == tick_text(sample_views(samples@)),
        no_control_chars(r@),
        r@.len() >= 2 && r@[0] == '[' && r@.last() == ']',
{
    let blocks = convert_blocks_to_bar_blocks(samples);
    bar_blocks_to_json(&blocks)
}

} // verus!

verus! {

/// The fields of a click object as the bar host writes them.
#[derive(Debug)]
pub struct RawClick {
    pub instance: String,
    pub button: u32,
    pub x: u32,
    pub y: u32,
    pub relative_x: u32,
    pub relative_y: u32,
    pub width: u32,
    pub height: u32,
}

/// Why a click object cannot be turned into a click.
#[derive(Debug, Copy, Clone, PartialEq, Eq, Structural)]
pub enum ClickError {
    /// The `instance` field is not an unsigned number.
    InvalidInstance,
}

/// The button that the host's button number stands for; an unknown number
/// is taken as the left button.
pub open spec fn spec_button_for_code(code: u32) -> MouseButton {
    if code == 2 {
        MouseButton::Middle
    } else if code == 3 {
        MouseButton::Right
    } else if code == 4 {
        MouseButton::ScrollUp
    } else if code == 5 {
        MouseButton::ScrollDown
    } else {
        MouseButton::Left
    }
}

/// The host's number for a button.
pub open spec fn spec_button_code(b: MouseButton) -> u32 {
    match b {
        MouseButton::Left => 1,
        MouseButton::Middle => 2,
        MouseButton::Right => 3,
        MouseButton::ScrollUp => 4,
        MouseButton::ScrollDown => 5,
    }
}

pub fn button_for_code(code: u32) -> (b: MouseButton)
    ensures
        b == spec_button_for_code(code),
{
    match code {
        2 => MouseButton::Middle,
        3 => MouseButton::Right,
        4 => MouseButton::ScrollUp,
        5 => MouseButton::ScrollDown,
        _ => MouseButton::Left,
    }
}

/// Whether the host's button number names a button, rather than being
/// taken as the left one.
pub fn is_known_button_code(code: u32) -> (r: bool)
    ensures
        r <==> 1 <= code <= 5,
{
    1 <= code && code <= 5
}

pub fn button_code(b: MouseButton) -> (code: u32)
    ensures
        code == spec_button_code(b),
{
    match b {
        MouseButton::Left => 1,
        MouseButton::Middle => 2,
        MouseButton::Right => 3,
        MouseButton::ScrollUp => 4,
        MouseButton::ScrollDown => 5,
    }
}

/// Whether `ev` is the click that the host's fields describe, at slot `instance`.
pub open spec fn describes(raw: RawClick, ev: ClickEvent, instance: usize) -> bool {
    &&& ev.spec_button() == spec_button_for_code(raw.button)
    &&& ev.spec_instance() == instance
    &&& ev.spec_absolute_position() == Position(raw.x, raw.y)
    &&& ev.spec_position() == Position(raw.relative_x, raw.relative_y)
    &&& ev.spec_block_dimensions() == Dimensions(raw.width, raw.height)
}

/// Turns the fields of a click object into a click. It fails exactly where
/// `instance` is not an unsigned number.
pub fn decode_click(raw: &RawClick) -> (r: Result<ClickEvent, ClickError>)
    ensures
        unsigned_value(raw.instance@) is None <==> r is Err,
        r matches Ok(ev) ==> describes(*raw, ev, unsigned_value(raw.instance@)->Some_0),
{
    let button = button_for_code(raw.button);
    match parse_unsigned(raw.instance.as_str()) {
        Some(instance) => {
            let ev = ClickEvent::new(
                button,
                Position(raw.relative_x, raw.relative_y),
                Dimensions(raw.width, raw.height),
                instance,
            );
            Ok(ev.with_absolute_position(Position(raw.x, raw.y)))
        },
        None => Err(ClickError::InvalidInstance),
    }
}

/// The fields that a host writes for `ev`.
pub fn encode_click(ev: &ClickEvent) -> (r: RawClick)
    ensures
        r.instance@ == decimal(ev.spec_instance() as nat),
        r.button == spec_button_code(ev.spec_button()),
        Position(r.x, r.y) == ev.spec_absolute_position(),
        Position(r.relative_x, r.relative_y) == ev.spec_position(),
        Dimensions(r.width, r.height) == ev.spec_block_dimensions(),
{
    let mut instance = String::new();
    push_decimal(&mut instance, ev.instance() as u128);
    let absolute = ev.absolute_position();
    let relative = ev.position();
    let dims = ev.block_dimensions();
    RawClick {
        instance,
        button: button_code(ev.button()),
        x: absolute.0,
        y: absolute.1,
        relative_x: relative.0,
        relative_y: relative.1,
        width: dims.0,
        height: dims.1,
    }
}

/// A line without its line ending (`\n` or `\r\n`), if it has one.
pub open spec fn without_line_ending(s: Seq<char>) -> Seq<char> {
    if s.len() >= 2 && s[s.len() - 2] == '\r' && s.last() == '\n' {
        s.subrange(0, s.len() - 2)
    } else if s.len() >= 1 && s.last() == '\n' {
        s.drop_last()
    } else {
        s
    }
}

/// What a line read from the host carries: nothing for the line `[` that
/// opens the host's array, else the click object, that is the line without
/// its line ending and with the commas at both ends removed.
pub fn click_payload(line: &str) -> (r: Option<&str>)
    ensures
        r is None <==> without_line_ending(line@) == seq!['['],
        r matches Some(p) ==> p@ == trim_commas(without_line_ending(line@)),
{
    let n = line.unicode_len();
    let mut end: usize = n;
    if n >= 1 && line.get_char(n - 1) == '\n' {
        end = n - 1;
        if n >= 2 && line.get_char(n - 2) == '\r' {
            end = n - 2;
        }
    }
    let body = line.substring_char(0, end);
    assert(body@ =~= without_line_ending(line@));
    if end == 1 && body.get_char(0) == '[' {
        assert(body@ =~= seq!['[']);
        None
    } else {
        Some(trim_commas_of(body))
    }
}

/// The slot that a click is for, where there is a source at that slot.
pub fn click_target(n_sources: usize, event: &ClickEvent) -> (r: Option<usize>)
    ensures
        event.spec_instance() < n_sources ==> r == Some(event.spec_instance()),
        event.spec_instance() >= n_sources ==> r is None,
{
    let i = event.instance();
    if i < n_sources {
        Some(i)
    } else {
        None
    }
}

} // verus!

verus! {

/// Decodes the fields of a click object and picks the slot that it is for:
/// `Ok(None)` where no source stands at its slot, an error exactly where its
/// `instance` is not an unsigned number.
pub fn route_click(n_sources: usize, raw: &RawClick) -> (r: Result<Option<(usize, ClickEvent)>, ClickError>)
    ensures
        unsigned_value(raw.instance@) is None <==> r is Err,
        unsigned_value(raw.instance@) matches Some(i) ==> {
            &&& i < n_sources ==> (r matches Ok(Some((slot, ev))) && slot == i && describes(*raw, ev, i))
            &&& i >= n_sources ==> r == Ok::<Option<(usize, ClickEvent)>, ClickError>(None)
        },
{
    match decode_click(raw) {
        Ok(ev) => match click_target(n_sources, &ev) {
            Some(slot) => Ok(Some((slot, ev))),
            None => Ok(None),
        },
        Err(e) => Err(e),
    }
}

/// The lines that follow the header: `[`, then each tick's line and a comma.
pub open spec fn ticks_text(lines: Seq<Seq<char>>) -> Seq<char>
    decreases lines.len(),
{
    if lines.len() == 0 {
        Seq::empty()
    } else {
        ticks_text(lines.drop_last()) + lines.last() + ",\n"@
    }
}

/// The header line, then the line that opens the endless array.
pub open spec fn preamble_text(click_events: bool) -> Seq<char> {
    header_text(click_events) + "\n[\n"@
}

/// The output of the bar stream: what has been written to the host so far.
pub struct BarStream {
    click_events: bool,
    started: bool,
    lines: Ghost<Seq<Seq<char>>>,
    written: Ghost<Seq<char>>,
}

impl BarStream {
    /// Everything handed out so far, in order.
    pub closed spec fn spec_written(&self) -> Seq<char> {
        self.written@
    }

    /// The tick lines handed out so far.
    pub closed spec fn spec_lines(&self) -> Seq<Seq<char>> {
        self.lines@
    }

    pub closed spec fn spec_started(&self) -> bool {
        self.started
    }

    pub closed spec fn spec_click_events(&self) -> bool {
        self.click_events
    }

    pub closed spec fn wf(&self) -> bool {
        &&& !self.started ==> self.lines@.len() == 0 && self.written@.len() == 0
        &&& self.started ==> self.written@ == preamble_text(self.click_events) + ticks_text(self.lines@)
    }

    /// A stream that has written nothing yet.
    pub fn new(click_events: bool) -> (r: Self)
        ensures
            r.wf(),
            !r.spec_started(),
            r.spec_click_events() == click_events,
            r.spec_written().len() == 0,
            r.spec_lines().len() == 0,
    {
        BarStream { click_events, started: false, lines: Ghost(Seq::empty()), written: Ghost(Seq::empty()) }
    }

    /// The header and the opening `[` the first time; nothing afterwards.
    pub fn start(&mut self) -> (r: String)
        requires
            old(self).wf(),
        ensures
            final(self).wf(),
            final(self).spec_started(),
            final(self).spec_click_events() == old(self).spec_click_events(),
            final(self).spec_lines() == old(self).spec_lines(),
            final(self).spec_written() == old(self).spec_written() + r@,
            old(self).spec_started() ==> r@.len() == 0,
            !old(self).spec_started() ==> r@ == preamble_text(old(self).spec_click_events()),
    {
        if self.started {
            assert(self.written@ + Seq::<char>::empty() =~= self.written@);
            String::new()
        } else {
            let header = get_header_json(self.click_events);
            let mut r = header;
            r.append("\n[\n");
            self.started = true;
            self.written = Ghost(r@);
            assert(ticks_text(self.lines@) =~= Seq::<char>::empty());
            assert(self.written@ =~= preamble_text(self.click_events) + ticks_text(self.lines@));
            assert(old(self).written@ + r@ =~= r@);
            r
        }
    }

    /// The text for one tick: its status line and a comma, preceded by the
    /// header and the opening `[` if the stream has not started.
    pub fn tick(&mut self, line: &str) -> (r: String)
        requires
            old(self).wf(),
        ensures
            final(self).wf(),
            final(self).spec_started(),
            final(self).spec_click_events() == old(self).spec_click_events(),
            final(self).spec_lines() == old(self).spec_lines().push(line@),
            final(self).spec_written() == old(self).spec_written() + r@,
            old(self).spec_started() ==> r@ == line@ + ",\n"@,
            !old(self).spec_started() ==> r@ == preamble_text(old(self).spec_click_events()) + line@ + ",\n"@,
    {
        let mut r = self.start();
        let ghost before = self.written@;
        r.append(line);
        r.append(",\n");
        let ghost lines = self.lines@.push(line@);
        assert(lines.drop_last() =~= self.lines@);
        self.lines = Ghost(lines);
        self.written = Ghost(old(self).written@ + r@);
        assert(self.written@ =~= preamble_text(self.click_events) + ticks_text(self.lines@));
        r
    }
}

/// Whatever the calls on a stream were, its output is the header line, the
/// line `[`, then one line per tick ending in a comma; the outer array is
/// never closed.
pub proof fn lemma_stream_shape(s: BarStream)
    requires
        s.wf(),
    ensures
        s.spec_started() ==> s.spec_written() == header_text(s.spec_click_events()) + "\n[\n"@
            + ticks_text(s.spec_lines()),
        !s.spec_started() ==> s.spec_written().len() == 0,
{
}

/// A tick shows one block per successful sample, no more: the blocks'
/// slots are the successful ones, each once, in increasing order.
pub proof fn lemma_tick_blocks(sv: Seq<Option<Seq<char>>>)
    ensures
        shown_blocks(sv).len() == count_shown(sv),
        forall|k: int, l: int| 0 <= k < l < shown_slots(sv).len()
            ==> #[trigger] shown_slots(sv)[k] < #[trigger] shown_slots(sv)[l],
        forall|i: int| 0 <= i < sv.len() && (#[trigger] sv[i]) is Some
            ==> shown_slots(sv).contains(i),
        forall|k: int| 0 <= k < shown_slots(sv).len()
            ==> 0 <= #[trigger] shown_slots(sv)[k] < sv.len() && sv[shown_slots(sv)[k]] is Some,
    decreases sv.len(),
{
    lemma_shown_slots_bounded(sv);
    if sv.len() > 0 {
        let pre = sv.drop_last();
        lemma_tick_blocks(pre);
        lemma_shown_slots_bounded(pre);
        let rest = shown_slots(pre);
        assert forall|k: int, l: int| 0 <= k < l < shown_slots(sv).len()
            implies #[trigger] shown_slots(sv)[k] < #[trigger] shown_slots(sv)[l] by {
            if l < rest.len() {
                assert(shown_slots(sv)[k] == rest[k]);
                assert(shown_slots(sv)[l] == rest[l]);
            } else {
                assert(shown_slots(sv)[k] == rest[k]);
            }
        }
        assert forall|i: int| 0 <= i < sv.len() && (#[trigger] sv[i]) is Some
            implies shown_slots(sv).contains(i) by {
            if i < sv.len() - 1 {
                assert(pre[i] == sv[i]);
                let k = choose|k: int| 0 <= k < rest.len() && rest[k] == i;
                assert(shown_slots(sv)[k] == i);
            } else {
                assert(shown_slots(sv)[rest.len() as int] == i);
            }
        }
    }
}

/// In every tick, each block's instance reads back as the slot whose
/// source rendered its text.
pub proof fn lemma_tick_instances(sv: Seq<Option<Seq<char>>>, k: int)
    requires
        sv.len() <= usize::MAX,
        0 <= k < shown_blocks(sv).len(),
    ensures
        ({
            let slot = shown_slots(sv)[k];
            let b = shown_blocks(sv)[k];
            &&& unsigned_value(b.2) == Some(slot as usize)
            &&& sv[slot] == Some(b.0)
        }),
{
    lemma_shown_slots_bounded(sv);
    let slot = shown_slots(sv)[k];
    crate::text::lemma_decimal_round_trip(slot as nat);
}

/// A source whose sample fails is absent from that tick, however many
/// ticks in a row it fails.
pub proof fn lemma_failed_slot_absent(sv: Seq<Option<Seq<char>>>, i: int)
    requires
        0 <= i < sv.len(),
        sv[i] is None,
    ensures
        !shown_slots(sv).contains(i),
{
    lemma_shown_slots_bounded(sv);
}

/// Two ticks whose samples show the same texts give the same line.
pub proof fn lemma_tick_deterministic(
    a: Seq<Result<BlockState, BlockError>>,
    b: Seq<Result<BlockState, BlockError>>,
)
    requires
        sample_views(a) == sample_views(b),
    ensures
        tick_text(sample_views(a)) == tick_text(sample_views(b)),
{
}

/// A click object that a host wrote for one of our blocks decodes to a click
/// whose fields, encoded again, are the host's: the button number and the
/// instance text come back unchanged.
pub proof fn lemma_click_round_trip(raw: RawClick, slot: usize)
    requires
        1 <= raw.button <= 5,
        raw.instance@ == decimal(slot as nat),
    ensures
        unsigned_value(raw.instance@) == Some(slot),
        spec_button_code(spec_button_for_code(raw.button)) == raw.button,
        decimal(unsigned_value(raw.instance@)->Some_0 as nat) == raw.instance@,
{
    crate::text::lemma_decimal_round_trip(slot as nat);
}

} // verus!
