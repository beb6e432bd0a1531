//! The escape-sequence decoder: a state machine that turns the bytes a shell
//! writes into mutations of the screen buffer.
//!
//! The machine is defined once, as the spec function [`step`] on the abstract
//! values of decoder and screen; [`Decoder::feed`] and [`Decoder::decode`]
//! are proved to compute it. Decoding is a left fold of `step` over the
//! bytes, so it does not matter how a stream is cut into batches.

use vstd::prelude::*;
use crate::buffer::ScreenBuffer;
use crate::screen::{EraseKind, Screen};
use crate::sgr;

verus! {

/// How many parameters a control sequence can carry; a sequence with more
/// is discarded.
pub const MAX_PARAMS: usize = 16;

/// How many bytes of an operating system command are kept; the rest of a
/// longer one is dropped.
pub const MAX_TEXT: usize = 1024;

/// The largest value of a parameter; larger numbers count as this one.
pub const MAX_PARAM: u16 = 0xffff;

/// Where the decoder stands in the byte stream.
#[derive(Clone, Copy, PartialEq, Eq, Structural, Debug)]
pub enum DecoderState {
    /// Plain text.
    Ground,
    /// After ESC.
    Escape,
    /// After `ESC [`, before any parameter byte.
    CsiEntry,
    /// Inside the parameters of a control sequence.
    CsiParam,
    /// Inside a control sequence that will be discarded at its final byte.
    CsiIgnore,
    /// Inside the text of an operating system command, after `ESC ]`.
    OscString,
    /// After ESC inside an operating system command.
    OscEscape,
}

/// What the decoder does about input that it cannot interpret. The input is
/// discarded either way.
#[derive(Clone, Copy, PartialEq, Eq, Structural, Debug)]
pub enum AnomalyPolicy {
    /// Say nothing.
    Ignore,
    /// Hand each anomaly to the caller of `decode`.
    Report,
}

/// Input that the decoder discarded.
#[derive(Clone, Copy, PartialEq, Eq, Structural, Debug)]
pub enum DecodeAnomaly {
    /// ESC followed by a byte that introduces nothing.
    UnknownEscape(u8),
    /// A complete control sequence that this terminal does not implement,
    /// with its final byte.
    UnknownSequence(u8),
    /// A byte that cannot stand inside a control sequence; the sequence was
    /// dropped there.
    MalformedSequence(u8),
    /// An operating system command of an unknown kind.
    UnknownCommand,
}

/// The abstract value of a [`Decoder`].
pub ghost struct DecoderModel {
    pub state: DecoderState,
    /// The parameters of the control sequence being read, 0 for an omitted
    /// one.
    pub params: Seq<u16>,
    /// The text of the operating system command being read.
    pub text: Seq<u8>,
    /// The window title that the shell set last.
    pub title: Seq<u8>,
    pub policy: AnomalyPolicy,
}

/// What one byte does: the decoder and the screen after it, and the anomaly
/// that it completed, if any.
pub ghost struct Step {
    pub decoder: DecoderModel,
    pub screen: Screen,
    pub anomaly: Option<DecodeAnomaly>,
}

/// Decoder, screen and the anomalies surfaced so far, as decoding carries
/// them from byte to byte.
pub ghost struct Machine {
    pub decoder: DecoderModel,
    pub screen: Screen,
    pub anomalies: Seq<DecodeAnomaly>,
}

pub const BELL: u8 = 0x07;

pub const BACKSPACE: u8 = 0x08;

pub const TAB: u8 = 0x09;

pub const LINE_FEED: u8 = 0x0a;

pub const CARRIAGE_RETURN: u8 = 0x0d;

pub const CANCEL: u8 = 0x18;

pub const SUBSTITUTE: u8 = 0x1a;

pub const ESCAPE: u8 = 0x1b;

/// Whether a byte in plain text is a character to write.
pub open spec fn is_printable(byte: u8) -> bool {
    0x20 <= byte <= 0x7e || byte >= 0xa0
}

/// Whether a byte ends a control sequence.
pub open spec fn is_final(byte: u8) -> bool {
    0x40 <= byte <= 0x7e
}

/// Whether a byte is a decimal digit.
pub open spec fn is_digit(byte: u8) -> bool {
    0x30 <= byte <= 0x39
}

/// Whether a byte can stand inside a control sequence without being one
/// that this terminal reads: an intermediate byte, a colon or a private
/// marker.
pub open spec fn is_unread_parameter(byte: u8) -> bool {
    0x20 <= byte <= 0x2f || byte == 0x3a || 0x3c <= byte <= 0x3f
}

/// Whether a byte cancels the sequence being read.
pub open spec fn is_cancel(byte: u8) -> bool {
    byte == CANCEL || byte == SUBSTITUTE
}

/// The `i`-th parameter, or `default` where it is omitted or 0.
pub open spec fn param(params: Seq<u16>, i: int, default: int) -> int {
    if 0 <= i < params.len() && params[i] != 0 {
        params[i] as int
    } else {
        default
    }
}

/// The mode that a sequence selects: its first parameter, 0 if omitted.
pub open spec fn mode(params: Seq<u16>) -> int {
    param(params, 0, 0)
}

/// The column of the tab stop after `column`; tab stops stand every 8
/// columns.
pub open spec fn next_tab_stop(column: int) -> int {
    (column / 8 + 1) * 8
}

/// The parameters after one more digit: the digit opens the first parameter
/// or extends the last one, which stops growing at `MAX_PARAM`.
pub open spec fn push_digit(params: Seq<u16>, digit: int) -> Seq<u16> {
    if params.len() == 0 {
        seq![digit as u16]
    } else {
        let value = params.last() * 10 + digit;
        params.update(
            params.len() - 1,
            if value > MAX_PARAM {
                MAX_PARAM
            } else {
                value as u16
            },
        )
    }
}

/// The parameters after a separator: a new, still omitted parameter; before
/// any digit the first parameter is omitted too.
pub open spec fn push_separator(params: Seq<u16>) -> Seq<u16> {
    if params.len() == 0 {
        seq![0u16, 0u16]
    } else {
        params.push(0)
    }
}

/// The title that an operating system command sets: the text after `0;` or
/// `2;`. `None` for any other command.
pub open spec fn title_of(text: Seq<u8>) -> Option<Seq<u8>> {
    if text.len() >= 2 && (text[0] == 0x30 || text[0] == 0x32) && text[1] == 0x3b {
        Some(text.skip(2))
    } else {
        None
    }
}

impl DecoderModel {
    /// A decoder in plain text with empty buffers and no title.
    pub open spec fn initial(policy: AnomalyPolicy) -> DecoderModel {
        DecoderModel {
            state: DecoderState::Ground,
            params: Seq::empty(),
            text: Seq::empty(),
            title: Seq::empty(),
            policy,
        }
    }

    /// The decoder in `state`, its sequence buffers emptied.
    pub open spec fn enter(self, state: DecoderState) -> DecoderModel {
        DecoderModel { state, params: Seq::empty(), text: Seq::empty(), ..self }
    }

    /// The decoder back in plain text.
    pub open spec fn ground(self) -> DecoderModel {
        self.enter(DecoderState::Ground)
    }
}

/// A step that changes the decoder alone.
pub open spec fn quiet(decoder: DecoderModel, screen: Screen) -> Step {
    Step { decoder, screen, anomaly: None }
}

/// A step that discards input.
pub open spec fn discard(decoder: DecoderModel, screen: Screen, anomaly: DecodeAnomaly) -> Step {
    Step { decoder, screen, anomaly: Some(anomaly) }
}

/// A byte of plain text: a printable byte is written at the cursor with the
/// current attribute; line feed, carriage return, tab and backspace move
/// the cursor; ESC opens a sequence; any other byte, the bell among them,
/// leaves the screen alone.
pub open spec fn ground_step(d: DecoderModel, s: Screen, byte: u8) -> Step {
    if byte == ESCAPE {
        quiet(d.enter(DecoderState::Escape), s)
    } else if byte == LINE_FEED {
        quiet(d, s.line_feed())
    } else if byte == CARRIAGE_RETURN {
        quiet(d, s.move_cursor(s.cursor.row as int, 0))
    } else if byte == TAB {
        quiet(d, s.move_cursor(s.cursor.row as int, next_tab_stop(s.cursor.column as int)))
    } else if byte == BACKSPACE {
        quiet(d, s.move_cursor(s.cursor.row as int, s.cursor.column - 1))
    } else if is_printable(byte) {
        quiet(d, s.write_cell(byte as u32, s.attribute))
    } else {
        quiet(d, s)
    }
}

/// The byte after ESC: `[` opens a control sequence, `]` an operating
/// system command; `D`, `E` and `M` move the cursor a row down, to the
/// start of the next row, and a row up, scrolling at the edge of the scroll
/// region; ESC starts over; a cancel byte returns to plain text; any other
/// byte is discarded and the decoder returns to plain text.
pub open spec fn escape_step(d: DecoderModel, s: Screen, byte: u8) -> Step {
    if byte == 0x5b {  // [
        quiet(d.enter(DecoderState::CsiEntry), s)
    } else if byte == 0x5d {  // ]
        quiet(d.enter(DecoderState::OscString), s)
    } else if byte == 0x44 {  // D
        quiet(d.ground(), s.line_feed())
    } else if byte == 0x45 {  // E
        quiet(d.ground(), s.move_cursor(s.cursor.row as int, 0).line_feed())
    } else if byte == 0x4d {  // M
        quiet(d.ground(), s.reverse_index())
    } else if byte == ESCAPE {
        quiet(d.enter(DecoderState::Escape), s)
    } else if is_cancel(byte) {
        quiet(d.ground(), s)
    } else {
        discard(d.ground(), s, DecodeAnomaly::UnknownEscape(byte))
    }
}

/// The scroll region that `r` sets, rows counted from 1 in the parameters:
/// top and bottom default to the first and the last row, a bottom past the
/// grid is the last row. The region is set, and the cursor sent home, only
/// if it spans at least two rows.
pub open spec fn set_margins(s: Screen, params: Seq<u16>) -> Screen {
    let top = param(params, 0, 1) - 1;
    let wanted = param(params, 1, s.rows) - 1;
    let bottom = if wanted >= s.rows {
        s.rows - 1
    } else {
        wanted
    };
    if top < bottom {
        s.set_scroll_region(top, bottom).move_cursor(0, 0)
    } else {
        s
    }
}

/// What a complete control sequence does to the screen. Each sequence has
/// its own default for an omitted parameter: 1 for the counts of `A B C D
/// S T` and the positions of `H f r`, 0 for the modes of `J K`.
pub open spec fn dispatch(s: Screen, params: Seq<u16>, byte: u8) -> (Screen, Option<
    DecodeAnomaly,
>) {
    let row = s.cursor.row as int;
    let column = s.cursor.column as int;
    if byte == 0x41 {  // A
        (s.move_cursor(row - param(params, 0, 1), column), None)
    } else if byte == 0x42 {  // B
        (s.move_cursor(row + param(params, 0, 1), column), None)
    } else if byte == 0x43 {  // C
        (s.move_cursor(row, column + param(params, 0, 1)), None)
    } else if byte == 0x44 {  // D
        (s.move_cursor(row, column - param(params, 0, 1)), None)
    } else if byte == 0x48 || byte == 0x66 {  // H f
        (s.move_cursor(param(params, 0, 1) - 1, param(params, 1, 1) - 1), None)
    } else if byte == 0x4a {  // J
        if mode(params) == 0 {
            (s.erase(EraseKind::ToEndOfScreen), None)
        } else if mode(params) == 2 {
            (s.erase(EraseKind::WholeScreen), None)
        } else {
            (s, Some(DecodeAnomaly::UnknownSequence(byte)))
        }
    } else if byte == 0x4b {  // K
        if mode(params) == 0 {
            (s.erase(EraseKind::ToEndOfLine), None)
        } else if mode(params) == 2 {
            (s.erase(EraseKind::WholeLine), None)
        } else {
            (s, Some(DecodeAnomaly::UnknownSequence(byte)))
        }
    } else if byte == 0x53 {  // S
        (s.scroll(param(params, 0, 1)), None)
    } else if byte == 0x54 {  // T
        (s.scroll(-param(params, 0, 1)), None)
    } else if byte == 0x6d {  // m
        (s.set_attribute(sgr::apply(s.attribute, params)), None)
    } else if byte == 0x72 {  // r
        (set_margins(s, params), None)
    } else {
        (s, Some(DecodeAnomaly::UnknownSequence(byte)))
    }
}

/// A byte inside a control sequence: digits and `;` build the parameters; a
/// final byte dispatches the sequence and returns to plain text; bytes that
/// this terminal does not read, and a separator past the last parameter it
/// can hold, mark the sequence for discarding; ESC starts a new sequence; a
/// cancel byte returns to plain text; any other byte drops the sequence.
pub open spec fn csi_step(d: DecoderModel, s: Screen, byte: u8) -> Step {
    if is_digit(byte) {
        quiet(
            DecoderModel {
                state: DecoderState::CsiParam,
                params: push_digit(d.params, byte - 0x30),
                ..d
            },
            s,
        )
    } else if byte == 0x3b {  // ;
        if d.params.len() < MAX_PARAMS {
            quiet(
                DecoderModel {
                    state: DecoderState::CsiParam,
                    params: push_separator(d.params),
                    ..d
                },
                s,
            )
        } else {
            quiet(d.enter(DecoderState::CsiIgnore), s)
        }
    } else if is_final(byte) {
        let (screen, anomaly) = dispatch(s, d.params, byte);
        Step { decoder: d.ground(), screen, anomaly }
    } else if is_unread_parameter(byte) {
        quiet(d.enter(DecoderState::CsiIgnore), s)
    } else if byte == ESCAPE {
        discard(d.enter(DecoderState::Escape), s, DecodeAnomaly::MalformedSequence(byte))
    } else if is_cancel(byte) {
        quiet(d.ground(), s)
    } else {
        discard(d.ground(), s, DecodeAnomaly::MalformedSequence(byte))
    }
}

/// A byte inside a control sequence that is being discarded: the final
/// byte ends it.
pub open spec fn csi_ignore_step(d: DecoderModel, s: Screen, byte: u8) -> Step {
    if is_final(byte) {
        discard(d.ground(), s, DecodeAnomaly::UnknownSequence(byte))
    } else if 0x20 <= byte <= 0x3f {
        quiet(d, s)
    } else if byte == ESCAPE {
        discard(d.enter(DecoderState::Escape), s, DecodeAnomaly::MalformedSequence(byte))
    } else if is_cancel(byte) {
        quiet(d.ground(), s)
    } else {
        discard(d.ground(), s, DecodeAnomaly::MalformedSequence(byte))
    }
}

/// The end of an operating system command: a title command sets the title,
/// any other is discarded.
pub open spec fn finish_command(d: DecoderModel, s: Screen) -> Step {
    match title_of(d.text) {
        Some(title) => quiet(DecoderModel { title, ..d.ground() }, s),
        None => discard(d.ground(), s, DecodeAnomaly::UnknownCommand),
    }
}

/// A byte inside an operating system command: the bell ends the command,
/// ESC may start its terminator, a cancel byte drops it, any other byte is
/// text, kept while there is room.
pub open spec fn osc_step(d: DecoderModel, s: Screen, byte: u8) -> Step {
    if byte == BELL {
        finish_command(d, s)
    } else if byte == ESCAPE {
        quiet(DecoderModel { state: DecoderState::OscEscape, ..d }, s)
    } else if is_cancel(byte) {
        quiet(d.ground(), s)
    } else if d.text.len() < MAX_TEXT {
        quiet(DecoderModel { text: d.text.push(byte), ..d }, s)
    } else {
        quiet(d, s)
    }
}

/// The byte after ESC inside an operating system command: a backslash
/// completes the terminator and ends the command; any other byte drops the
/// command and is read as the byte after an ESC in plain text.
pub open spec fn osc_escape_step(d: DecoderModel, s: Screen, byte: u8) -> Step {
    if byte == 0x5c {  // backslash
        finish_command(d, s)
    } else {
        escape_step(d.enter(DecoderState::Escape), s, byte)
    }
}

/// The state machine: what one byte does in the state the decoder is in.
pub open spec fn step(d: DecoderModel, s: Screen, byte: u8) -> Step {
    match d.state {
        DecoderState::Ground => ground_step(d, s, byte),
        DecoderState::Escape => escape_step(d, s, byte),
        DecoderState::CsiEntry | DecoderState::CsiParam => csi_step(d, s, byte),
        DecoderState::CsiIgnore => csi_ignore_step(d, s, byte),
        DecoderState::OscString => osc_step(d, s, byte),
        DecoderState::OscEscape => osc_escape_step(d, s, byte),
    }
}

/// The anomalies after a step: the one it completed is added if the policy
/// is to report.
pub open spec fn surfaced(
    anomalies: Seq<DecodeAnomaly>,
    policy: AnomalyPolicy,
    anomaly: Option<DecodeAnomaly>,
) -> Seq<DecodeAnomaly> {
    match anomaly {
        Some(anomaly) if policy == AnomalyPolicy::Report => anomalies.push(anomaly),
        _ => anomalies,
    }
}

impl Machine {
    /// The machine after one byte.
    pub open spec fn feed(self, byte: u8) -> Machine {
        let after = step(self.decoder, self.screen, byte);
        Machine {
            decoder: after.decoder,
            screen: after.screen,
            anomalies: surfaced(self.anomalies, self.decoder.policy, after.anomaly),
        }
    }

    /// The machine after a batch of bytes, fed in order.
    pub open spec fn run(self, bytes: Seq<u8>) -> Machine
        decreases bytes.len(),
    {
        if bytes.len() == 0 {
            self
        } else {
            self.run(bytes.drop_last()).feed(bytes.last())
        }
    }
}

/// Decoding does not depend on how the stream is cut: feeding a batch and
/// then another leaves decoder, screen and surfaced anomalies exactly as
/// feeding the two batches as one does. The state of the decoder carries a
/// sequence that the cut divides.
pub proof fn lemma_decode_split(m: Machine, first: Seq<u8>, second: Seq<u8>)
    ensures
        m.run(first + second) == m.run(first).run(second),
    decreases second.len(),
{
    if second.len() == 0 {
        assert(first + second =~= first);
    } else {
        lemma_decode_split(m, first, second.drop_last());
        assert((first + second).drop_last() =~= first + second.drop_last());
        assert((first + second).last() == second.last());
    }
}

/// The anomalies surfaced earlier do not influence decoding: a batch adds
/// its own anomalies behind them and does to decoder and screen what it does
/// when none were surfaced before.
pub proof fn lemma_anomalies_accumulate(m: Machine, bytes: Seq<u8>)
    ensures
        m.run(bytes).decoder == (Machine { anomalies: Seq::empty(), ..m }).run(bytes).decoder,
        m.run(bytes).screen == (Machine { anomalies: Seq::empty(), ..m }).run(bytes).screen,
        m.run(bytes).anomalies == m.anomalies + (Machine { anomalies: Seq::empty(), ..m }).run(
            bytes,
        ).anomalies,
    decreases bytes.len(),
{
    let fresh = Machine { anomalies: Seq::empty(), ..m };
    if bytes.len() == 0 {
        assert(m.anomalies + fresh.anomalies =~= m.anomalies);
    } else {
        lemma_anomalies_accumulate(m, bytes.drop_last());
        let before = m.run(bytes.drop_last());
        let fresh_before = fresh.run(bytes.drop_last());
        assert(m.anomalies + fresh_before.feed(bytes.last()).anomalies =~= before.feed(
            bytes.last(),
        ).anomalies);
    }
}

/// Two calls of `decode` on the two parts of a stream leave decoder and
/// screen exactly as one call on the whole stream does, and hand out between
/// them the anomalies of the whole, in order.
pub proof fn lemma_decode_in_two_calls(d: DecoderModel, s: Screen, first: Seq<u8>, second: Seq<u8>)
    ensures
        ({
            let start = Machine { decoder: d, screen: s, anomalies: Seq::empty() };
            let middle = start.run(first);
            let end = (Machine { anomalies: Seq::empty(), ..middle }).run(second);
            let whole = start.run(first + second);
            &&& whole.decoder == end.decoder
            &&& whole.screen == end.screen
            &&& whole.anomalies == middle.anomalies + end.anomalies
        }),
{
    let start = Machine { decoder: d, screen: s, anomalies: Seq::empty() };
    lemma_decode_split(start, first, second);
    lemma_anomalies_accumulate(start.run(first), second);
}

/// Decoding does not depend on how the stream is cut, for any number of
/// cuts: feeding the batches one after another equals feeding them joined.
pub proof fn lemma_decode_batches(m: Machine, batches: Seq<Seq<u8>>)
    ensures
        run_batches(m, batches) == m.run(batches.flatten()),
    decreases batches.len(),
{
    if batches.len() == 0 {
        assert(batches.flatten() =~= Seq::<u8>::empty());
    } else {
        lemma_decode_batches(m, batches.drop_last());
        batches.drop_last().lemma_flatten_push(batches.last());
        assert(batches.drop_last().push(batches.last()) =~= batches);
        lemma_decode_split(m, batches.drop_last().flatten(), batches.last());
    }
}

/// The code points of a run of text bytes.
pub open spec fn code_points(bytes: Seq<u8>) -> Seq<u32> {
    Seq::new(bytes.len(), |i: int| bytes[i] as u32)
}

/// Plain text is written as it comes: a run of printable bytes that meets
/// the decoder in the ground state writes its characters one after another
/// with the current attribute, surfaces nothing and leaves the decoder as it
/// was.
pub proof fn lemma_decode_text(m: Machine, bytes: Seq<u8>)
    requires
        m.decoder.state == DecoderState::Ground,
        forall|i: int| 0 <= i < bytes.len() ==> is_printable(#[trigger] bytes[i]),
    ensures
        m.run(bytes) == (Machine {
            screen: m.screen.write_run(code_points(bytes), m.screen.attribute),
            ..m
        }),
        m.run(bytes).screen.attribute == m.screen.attribute,
    decreases bytes.len(),
{
    if bytes.len() > 0 {
        lemma_decode_text(m, bytes.drop_last());
        assert(code_points(bytes).drop_last() =~= code_points(bytes.drop_last()));
        assert(is_printable(bytes[bytes.len() - 1]));
    }
}

/// No byte makes the decoder fail or damages the screen's invariant:
/// whatever the state and the byte, the step is defined and the screen stays
/// well formed.
pub proof fn lemma_step_keeps_screen(d: DecoderModel, s: Screen, byte: u8)
    requires
        s.wf(),
    ensures
        step(d, s, byte).screen.wf(),
        step(d, s, byte).decoder.policy == d.policy,
{
    crate::screen::lemma_mutations_preserve_wf(s);
    crate::screen::lemma_mutations_preserve_wf(s.move_cursor(s.cursor.row as int, 0));
    assert forall|top: int, bottom: int| #[trigger]
        s.set_scroll_region(top, bottom).move_cursor(0, 0).wf() by {
        crate::screen::lemma_mutations_preserve_wf(s.set_scroll_region(top, bottom));
    }
}

/// A batch of any bytes leaves the screen well formed.
pub proof fn lemma_run_keeps_screen(m: Machine, bytes: Seq<u8>)
    requires
        m.screen.wf(),
    ensures
        m.run(bytes).screen.wf(),
        m.run(bytes).decoder.policy == m.decoder.policy,
    decreases bytes.len(),
{
    if bytes.len() > 0 {
        lemma_run_keeps_screen(m, bytes.drop_last());
        let before = m.run(bytes.drop_last());
        lemma_step_keeps_screen(before.decoder, before.screen, bytes.last());
    }
}

/// A control sequence cannot swallow what follows it: whatever the decoder
/// has read of a control sequence, a final byte ends the sequence and
/// returns the decoder to plain text with empty buffers, and a cancel byte
/// does so from every state but plain text itself.
pub proof fn lemma_sequence_ends(d: DecoderModel, s: Screen, byte: u8)
    ensures
        (d.state == DecoderState::CsiEntry || d.state == DecoderState::CsiParam || d.state
            == DecoderState::CsiIgnore) && is_final(byte) ==> step(d, s, byte).decoder
            == d.ground(),
        d.state != DecoderState::Ground && is_cancel(byte) ==> step(d, s, byte).decoder
            == d.ground() && step(d, s, byte).screen == s,
        d.policy == AnomalyPolicy::Ignore ==> (Machine {
            decoder: d,
            screen: s,
            anomalies: Seq::empty(),
        }).feed(byte).anomalies == Seq::<DecodeAnomaly>::empty(),
{
}

/// The machine after a series of batches, each fed as a whole.
pub open spec fn run_batches(m: Machine, batches: Seq<Seq<u8>>) -> Machine
    decreases batches.len(),
{
    if batches.len() == 0 {
        m
    } else {
        run_batches(m, batches.drop_last()).run(batches.last())
    }
}

} // verus!

verus! {

/// The decoder of one terminal session. It lives as long as the session and
/// takes the shell's output in batches of any size.
pub struct Decoder {
    state: DecoderState,
    params: Vec<u16>,
    text: Vec<u8>,
    title: Vec<u8>,
    policy: AnomalyPolicy,
}

impl View for Decoder {
    type V = DecoderModel;

    closed spec fn view(&self) -> DecoderModel {
        DecoderModel {
            state: self.state,
            params: self.params@,
            text: self.text@,
            title: self.title@,
            policy: self.policy,
        }
    }
}

fn parameter(params: &Vec<u16>, i: usize, default: u16) -> (value: u16)
    ensures
        value == param(params@, i as int, default as int),
{
    if i < params.len() && params[i] != 0 {
        params[i]
    } else {
        default
    }
}

/// `a + b`, stopping at the largest value.
fn add_bounded(a: u16, b: u16) -> (sum: u16)
    ensures
        sum == (if a + b > 0xffff {
            0xffff
        } else {
            a + b
        }),
{
    if b > 0xffff - a {
        0xffff
    } else {
        a + b
    }
}

/// `a - b`, stopping at 0.
fn sub_bounded(a: u16, b: u16) -> (difference: u16)
    ensures
        difference == (if a - b < 0 {
            0
        } else {
            a - b
        }),
{
    if b > a {
        0
    } else {
        a - b
    }
}

fn apply_margins(screen: &mut ScreenBuffer, params: &Vec<u16>)
    ensures
        final(screen)@ == set_margins(old(screen)@, params@),
{
    let rows = screen.rows();
    let top = parameter(params, 0, 1) - 1;
    let wanted = parameter(params, 1, rows) - 1;
    let bottom = if wanted >= rows {
        rows - 1
    } else {
        wanted
    };
    if top < bottom {
        screen.set_scroll_region(top, bottom);
        screen.move_cursor(0, 0);
    }
}

fn apply_sequence(screen: &mut ScreenBuffer, params: &Vec<u16>, byte: u8) -> (anomaly: Option<
    DecodeAnomaly,
>)
    ensures
        (final(screen)@, anomaly) == dispatch(old(screen)@, params@, byte),
{
    let cursor = screen.cursor();
    let count = parameter(params, 0, 1);
    let selected = parameter(params, 0, 0);
    if byte == 0x41 {  // A
        screen.move_cursor(sub_bounded(cursor.row, count), cursor.column);
        None
    } else if byte == 0x42 {  // B
        screen.move_cursor(add_bounded(cursor.row, count), cursor.column);
        None
    } else if byte == 0x43 {  // C
        screen.move_cursor(cursor.row, add_bounded(cursor.column, count));
        None
    } else if byte == 0x44 {  // D
        screen.move_cursor(cursor.row, sub_bounded(cursor.column, count));
        None
    } else if byte == 0x48 || byte == 0x66 {  // H f
        screen.move_cursor(count - 1, parameter(params, 1, 1) - 1);
        None
    } else if byte == 0x4a {  // J
        if selected == 0 {
            screen.erase(EraseKind::ToEndOfScreen);
            None
        } else if selected == 2 {
            screen.erase(EraseKind::WholeScreen);
            None
        } else {
            Some(DecodeAnomaly::UnknownSequence(byte))
        }
    } else if byte == 0x4b {  // K
        if selected == 0 {
            screen.erase(EraseKind::ToEndOfLine);
            None
        } else if selected == 2 {
            screen.erase(EraseKind::WholeLine);
            None
        } else {
            Some(DecodeAnomaly::UnknownSequence(byte))
        }
    } else if byte == 0x53 {  // S
        screen.scroll(count as i32);
        None
    } else if byte == 0x54 {  // T
        screen.scroll(-(count as i32));
        None
    } else if byte == 0x6d {  // m
        let attribute = sgr::select_graphic_rendition(screen.attribute(), params);
        screen.set_attribute(attribute);
        None
    } else if byte == 0x72 {  // r
        apply_margins(screen, params);
        None
    } else {
        Some(DecodeAnomaly::UnknownSequence(byte))
    }
}

impl Decoder {
    /// A decoder in plain text that says nothing about input it discards.
    pub fn new() -> (decoder: Self)
        ensures
            decoder@ == DecoderModel::initial(AnomalyPolicy::Ignore),
    {
        Self::with_policy(AnomalyPolicy::Ignore)
    }

    /// A decoder in plain text with the given policy for input it discards.
    pub fn with_policy(policy: AnomalyPolicy) -> (decoder: Self)
        ensures
            decoder@ == DecoderModel::initial(policy),
    {
        Self {
            state: DecoderState::Ground,
            params: Vec::new(),
            text: Vec::new(),
            title: Vec::new(),
            policy,
        }
    }

    /// Where the decoder stands in the stream.
    pub fn state(&self) -> (state: DecoderState)
        ensures
            state == self@.state,
    {
        self.state
    }

    pub fn policy(&self) -> (policy: AnomalyPolicy)
        ensures
            policy == self@.policy,
    {
        self.policy
    }

    /// The window title that the shell set last; empty before the first.
    pub fn title(&self) -> (title: &Vec<u8>)
        ensures
            title@ == self@.title,
    {
        &self.title
    }

    fn enter(&mut self, state: DecoderState)
        ensures
            final(self)@ == old(self)@.enter(state),
    {
        self.state = state;
        self.params.clear();
        self.text.clear();
    }

    fn ground(&mut self, byte: u8, screen: &mut ScreenBuffer) -> (anomaly: Option<DecodeAnomaly>)
        ensures
            (Step { decoder: final(self)@, screen: final(screen)@, anomaly }) == ground_step(
                old(self)@,
                old(screen)@,
                byte,
            ),
    {
        let cursor = screen.cursor();
        if byte == ESCAPE {
            self.enter(DecoderState::Escape);
        } else if byte == LINE_FEED {
            screen.line_feed();
        } else if byte == CARRIAGE_RETURN {
            screen.move_cursor(cursor.row, 0);
        } else if byte == TAB {
            let stop: u32 = (cursor.column as u32 / 8 + 1) * 8;
            let column: u16 = if stop > 0xffff {
                0xffff
            } else {
                stop as u16
            };
            screen.move_cursor(cursor.row, column);
        } else if byte == BACKSPACE {
            screen.move_cursor(cursor.row, sub_bounded(cursor.column, 1));
        } else if (0x20 <= byte && byte <= 0x7e) || byte >= 0xa0 {
            let attribute = screen.attribute();
            screen.write_cell(byte as u32, attribute);
        }
        None
    }

    fn escape(&mut self, byte: u8, screen: &mut ScreenBuffer) -> (anomaly: Option<DecodeAnomaly>)
        ensures
            (Step { decoder: final(self)@, screen: final(screen)@, anomaly }) == escape_step(
                old(self)@,
                old(screen)@,
                byte,
            ),
    {
        let cursor = screen.cursor();
        if byte == 0x5b {  // [
            self.enter(DecoderState::CsiEntry);
            None
        } else if byte == 0x5d {  // ]
            self.enter(DecoderState::OscString);
            None
        } else if byte == 0x44 {  // D
            self.enter(DecoderState::Ground);
            screen.line_feed();
            None
        } else if byte == 0x45 {  // E
            self.enter(DecoderState::Ground);
            screen.move_cursor(cursor.row, 0);
            screen.line_feed();
            None
        } else if byte == 0x4d {  // M
            self.enter(DecoderState::Ground);
            screen.reverse_index();
            None
        } else if byte == ESCAPE {
            self.enter(DecoderState::Escape);
            None
        } else if byte == CANCEL || byte == SUBSTITUTE {
            self.enter(DecoderState::Ground);
            None
        } else {
            self.enter(DecoderState::Ground);
            Some(DecodeAnomaly::UnknownEscape(byte))
        }
    }

    fn add_digit(&mut self, digit: u8)
        requires
            digit <= 9,
        ensures
            final(self)@ == (DecoderModel {
                state: DecoderState::CsiParam,
                params: push_digit(old(self)@.params, digit as int),
                ..old(self)@
            }),
    {
        self.state = DecoderState::CsiParam;
        let n = self.params.len();
        if n == 0 {
            self.params.push(digit as u16);
            assert(self.params@ =~= push_digit(old(self)@.params, digit as int));
        } else {
            let value: u32 = self.params[n - 1] as u32 * 10 + digit as u32;
            self.params[n - 1] = if value > 0xffff {
                0xffff
            } else {
                value as u16
            };
        }
    }

    fn add_separator(&mut self)
        ensures
            final(self)@ == (DecoderModel {
                state: DecoderState::CsiParam,
                params: push_separator(old(self)@.params),
                ..old(self)@
            }),
    {
        self.state = DecoderState::CsiParam;
        if self.params.len() == 0 {
            self.params.push(0);
            self.params.push(0);
            assert(self.params@ =~= push_separator(old(self)@.params));
        } else {
            self.params.push(0);
        }
    }

    fn csi(&mut self, byte: u8, screen: &mut ScreenBuffer) -> (anomaly: Option<DecodeAnomaly>)
        ensures
            (Step { decoder: final(self)@, screen: final(screen)@, anomaly }) == csi_step(
                old(self)@,
                old(screen)@,
                byte,
            ),
    {
        if 0x30 <= byte && byte <= 0x39 {
            self.add_digit(byte - 0x30);
            None
        } else if byte == 0x3b {  // ;
            if self.params.len() < MAX_PARAMS {
                self.add_separator();
            } else {
                self.enter(DecoderState::CsiIgnore);
            }
            None
        } else if 0x40 <= byte && byte <= 0x7e {
            let anomaly = apply_sequence(screen, &self.params, byte);
            self.enter(DecoderState::Ground);
            anomaly
        } else if (0x20 <= byte && byte <= 0x2f) || byte == 0x3a || (0x3c <= byte && byte
            <= 0x3f) {
            self.enter(DecoderState::CsiIgnore);
            None
        } else if byte == ESCAPE {
            self.enter(DecoderState::Escape);
            Some(DecodeAnomaly::MalformedSequence(byte))
        } else if byte == CANCEL || byte == SUBSTITUTE {
            self.enter(DecoderState::Ground);
            None
        } else {
            self.enter(DecoderState::Ground);
            Some(DecodeAnomaly::MalformedSequence(byte))
        }
    }

    fn csi_ignore(&mut self, byte: u8, screen: &mut ScreenBuffer) -> (anomaly: Option<
        DecodeAnomaly,
    >)
        ensures
            (Step { decoder: final(self)@, screen: final(screen)@, anomaly }) == csi_ignore_step(
                old(self)@,
                old(screen)@,
                byte,
            ),
    {
        if 0x40 <= byte && byte <= 0x7e {
            self.enter(DecoderState::Ground);
            Some(DecodeAnomaly::UnknownSequence(byte))
        } else if 0x20 <= byte && byte <= 0x3f {
            None
        } else if byte == ESCAPE {
            self.enter(DecoderState::Escape);
            Some(DecodeAnomaly::MalformedSequence(byte))
        } else if byte == CANCEL || byte == SUBSTITUTE {
            self.enter(DecoderState::Ground);
            None
        } else {
            self.enter(DecoderState::Ground);
            Some(DecodeAnomaly::MalformedSequence(byte))
        }
    }

    fn finish(&mut self, screen: &mut ScreenBuffer) -> (anomaly: Option<DecodeAnomaly>)
        ensures
            (Step { decoder: final(self)@, screen: final(screen)@, anomaly }) == finish_command(
                old(self)@,
                old(screen)@,
            ),
    {
        let n = self.text.len();
        if n >= 2 && (self.text[0] == 0x30 || self.text[0] == 0x32) && self.text[1] == 0x3b {
            let mut title: Vec<u8> = Vec::new();
            let mut i: usize = 2;
            while i < n
                invariant
                    2 <= i <= n == self.text.len(),
                    title@ == self.text@.subrange(2, i as int),
                decreases n - i,
            {
                title.push(self.text[i]);
                i = i + 1;
                assert(title@ =~= self.text@.subrange(2, i as int));
            }
            assert(title@ =~= self.text@.skip(2));
            self.title = title;
            self.enter(DecoderState::Ground);
            None
        } else {
            self.enter(DecoderState::Ground);
            Some(DecodeAnomaly::UnknownCommand)
        }
    }

    fn osc(&mut self, byte: u8, screen: &mut ScreenBuffer) -> (anomaly: Option<DecodeAnomaly>)
        ensures
            (Step { decoder: final(self)@, screen: final(screen)@, anomaly }) == osc_step(
                old(self)@,
                old(screen)@,
                byte,
            ),
    {
        if byte == BELL {
            self.finish(screen)
        } else if byte == ESCAPE {
            self.state = DecoderState::OscEscape;
            None
        } else if byte == CANCEL || byte == SUBSTITUTE {
            self.enter(DecoderState::Ground);
            None
        } else {
            if self.text.len() < MAX_TEXT {
                self.text.push(byte);
            }
            None
        }
    }

    fn osc_escape(&mut self, byte: u8, screen: &mut ScreenBuffer) -> (anomaly: Option<
        DecodeAnomaly,
    >)
        ensures
            (Step { decoder: final(self)@, screen: final(screen)@, anomaly }) == osc_escape_step(
                old(self)@,
                old(screen)@,
                byte,
            ),
    {
        if byte == 0x5c {  // backslash
            self.finish(screen)
        } else {
            self.enter(DecoderState::Escape);
            self.escape(byte, screen)
        }
    }

    /// Takes one byte of the shell's output: advances the state machine and
    /// applies to the screen what the byte completes. Returns what was
    /// discarded at this byte, whatever the policy.
    pub fn feed(&mut self, byte: u8, screen: &mut ScreenBuffer) -> (anomaly: Option<
        DecodeAnomaly,
    >)
        ensures
            (Step { decoder: final(self)@, screen: final(screen)@, anomaly }) == step(
                old(self)@,
                old(screen)@,
                byte,
            ),
    {
        match self.state {
            DecoderState::Ground => self.ground(byte, screen),
            DecoderState::Escape => self.escape(byte, screen),
            DecoderState::CsiEntry | DecoderState::CsiParam => self.csi(byte, screen),
            DecoderState::CsiIgnore => self.csi_ignore(byte, screen),
            DecoderState::OscString => self.osc(byte, screen),
            DecoderState::OscEscape => self.osc_escape(byte, screen),
        }
    }

    /// Takes one batch of the shell's output, byte by byte. A sequence that
    /// the end of the batch cuts is resumed by the next call. Nothing in
    /// the input makes decoding fail: what cannot be interpreted is
    /// discarded, and returned if the policy is to report.
    pub fn decode(&mut self, bytes: &[u8], screen: &mut ScreenBuffer) -> (anomalies: Vec<
        DecodeAnomaly,
    >)
        ensures
            (Machine { decoder: final(self)@, screen: final(screen)@, anomalies: anomalies@ }) == (
            Machine {
                decoder: old(self)@,
                screen: old(screen)@,
                anomalies: Seq::empty(),
            }).run(bytes@),
    {
        let ghost start = Machine {
            decoder: self@,
            screen: screen@,
            anomalies: Seq::empty(),
        };
        let mut anomalies: Vec<DecodeAnomaly> = Vec::new();
        let mut i: usize = 0;
        while i < bytes.len()
            invariant
                i <= bytes.len(),
                (Machine { decoder: self@, screen: screen@, anomalies: anomalies@ }) == start.run(
                    bytes@.take(i as int),
                ),
            decreases bytes.len() - i,
        {
            let policy = self.policy;
            let anomaly = self.feed(bytes[i], screen);
            match anomaly {
                Some(anomaly) => {
                    if policy == AnomalyPolicy::Report {
                        anomalies.push(anomaly);
                    }
                },
                None => {},
            }
            i = i + 1;
            assert(bytes@.take(i as int).drop_last() =~= bytes@.take(i - 1));
        }
        assert(bytes@.take(i as int) =~= bytes@);
        anomalies
    }
}

} // verus!
