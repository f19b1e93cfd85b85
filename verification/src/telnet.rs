//! Telnet byte protocol: the option-negotiation byte parser, IAC escaping,
//! and outbound line-ending normalization.
//!
//! The parser is a pure state machine over the raw byte stream.  It separates
//! application data from negotiation commands and subnegotiation frames, and
//! tolerates frames split across any chunk boundary.

use vstd::prelude::*;

verus! {

pub const IAC: u8 = 255;

pub const DONT: u8 = 254;

pub const DO: u8 = 253;

pub const WONT: u8 = 252;

pub const WILL: u8 = 251;

pub const SB: u8 = 250;

pub const SE: u8 = 240;

pub const OPT_BINARY: u8 = 0;

pub const OPT_ECHO: u8 = 1;

pub const OPT_SGA: u8 = 3;

pub const OPT_TTYPE: u8 = 24;

pub const OPT_NAWS: u8 = 31;

pub const TTYPE_IS: u8 = 0;

pub const TTYPE_SEND: u8 = 1;

/// Parser position in the Telnet byte grammar.
#[derive(Debug, Clone, Copy, PartialEq, Eq, Structural)]
pub enum ParserState {
    Data,
    Iac,
    Command(u8),
    Subnegotiation,
    SubIac,
}

/// A decoded control item: either a negotiation command (DO/DONT/WILL/WONT
/// with its option) or a complete subnegotiation frame.
#[derive(Debug, Clone)]
pub enum TelnetEvent {
    Negotiation { command: u8, option: u8 },
    Subnegotiation { option: u8, data: Vec<u8> },
}

/// Spec-level image of a `TelnetEvent`.
pub enum EventModel {
    Negotiation { command: u8, option: u8 },
    Subnegotiation { option: u8, data: Seq<u8> },
}

impl DeepView for TelnetEvent {
    type V = EventModel;

    open spec fn deep_view(&self) -> EventModel {
        match self {
            TelnetEvent::Negotiation { command, option } => (EventModel::Negotiation {
                command: *command,
                option: *option,
            }),
            TelnetEvent::Subnegotiation { option, data } => (EventModel::Subnegotiation {
                option: *option,
                data: data@,
            }),
        }
    }
}

/// Spec-level image of the parser: state plus the subnegotiation accumulator.
pub struct ParserModel {
    pub state: ParserState,
    pub sb_option: Option<u8>,
    pub sb_data: Seq<u8>,
}

impl ParserModel {
    /// The state a fresh parser starts in.
    pub open spec fn init() -> ParserModel {
        ParserModel { state: ParserState::Data, sb_option: None, sb_data: Seq::empty() }
    }
}

/// One transition of the Telnet parser: the next model, the data bytes
/// emitted, and the events emitted.
pub open spec fn parser_step(m: ParserModel, byte: u8) -> (ParserModel, Seq<u8>, Seq<EventModel>) {
    match m.state {
        ParserState::Data => {
            if byte == IAC {
                (ParserModel { state: ParserState::Iac, ..m }, Seq::empty(), Seq::empty())
            } else {
                (m, seq![byte], Seq::empty())
            }
        },
        ParserState::Iac => {
            if byte == IAC {
                (ParserModel { state: ParserState::Data, ..m }, seq![IAC], Seq::empty())
            } else if byte == DO || byte == DONT || byte == WILL || byte == WONT {
                (
                    ParserModel { state: ParserState::Command(byte), ..m },
                    Seq::empty(),
                    Seq::empty(),
                )
            } else if byte == SB {
                (
                    ParserModel {
                        state: ParserState::Subnegotiation,
                        sb_option: None,
                        sb_data: Seq::empty(),
                    },
                    Seq::empty(),
                    Seq::empty(),
                )
            } else {
                (ParserModel { state: ParserState::Data, ..m }, Seq::empty(), Seq::empty())
            }
        },
        ParserState::Command(cmd) => {
            (
                ParserModel { state: ParserState::Data, ..m },
                Seq::empty(),
                seq![EventModel::Negotiation { command: cmd, option: byte }],
            )
        },
        ParserState::Subnegotiation => {
            if byte == IAC {
                (ParserModel { state: ParserState::SubIac, ..m }, Seq::empty(), Seq::empty())
            } else if m.sb_option is None {
                (
                    ParserModel { sb_option: Some(byte), ..m },
                    Seq::empty(),
                    Seq::empty(),
                )
            } else {
                (
                    ParserModel { sb_data: m.sb_data.push(byte), ..m },
                    Seq::empty(),
                    Seq::empty(),
                )
            }
        },
        ParserState::SubIac => {
            if byte == SE {
                let events = match m.sb_option {
                    Some(opt) => seq![
                        EventModel::Subnegotiation { option: opt, data: m.sb_data },
                    ],
                    None => Seq::empty(),
                };
                (
                    ParserModel {
                        state: ParserState::Data,
                        sb_option: None,
                        sb_data: Seq::empty(),
                    },
                    Seq::empty(),
                    events,
                )
            } else if byte == IAC {
                (
                    ParserModel {
                        state: ParserState::Subnegotiation,
                        sb_option: m.sb_option,
                        sb_data: m.sb_data.push(IAC),
                    },
                    Seq::empty(),
                    Seq::empty(),
                )
            } else {
                (
                    ParserModel { state: ParserState::Subnegotiation, ..m },
                    Seq::empty(),
                    Seq::empty(),
                )
            }
        },
    }
}

/// Running the parser over a whole input, concatenating emitted data and
/// events in order.
pub open spec fn parser_run(m: ParserModel, input: Seq<u8>) -> (
    ParserModel,
    Seq<u8>,
    Seq<EventModel>,
)
    decreases input.len(),
{
    if input.len() == 0 {
        (m, Seq::empty(), Seq::empty())
    } else {
        let stepped = parser_step(m, input[0]);
        let rest = parser_run(stepped.0, input.drop_first());
        (rest.0, stepped.1 + rest.1, stepped.2 + rest.2)
    }
}

/// Splitting the input anywhere does not change what the parser produces:
/// feeding `a` then `b` emits exactly the data and events of `a + b`.
pub proof fn lemma_parser_run_append(m: ParserModel, a: Seq<u8>, b: Seq<u8>)
    ensures
        ({
            let first = parser_run(m, a);
            let second = parser_run(first.0, b);
            let whole = parser_run(m, a + b);
            &&& whole.0 == second.0
            &&& whole.1 == first.1 + second.1
            &&& whole.2 == first.2 + second.2
        }),
    decreases a.len(),
{
    let first = parser_run(m, a);
    let second = parser_run(first.0, b);
    let whole = parser_run(m, a + b);
    if a.len() == 0 {
        assert(a + b =~= b);
        assert(whole.1 =~= first.1 + second.1);
        assert(whole.2 =~= first.2 + second.2);
    } else {
        let stepped = parser_step(m, a[0]);
        assert((a + b).drop_first() =~= a.drop_first() + b);
        lemma_parser_run_append(stepped.0, a.drop_first(), b);
        assert(whole.1 =~= first.1 + second.1);
        assert(whole.2 =~= first.2 + second.2);
    }
}

/// One unfolding of `parser_run` on a non-empty input.
proof fn lemma_parser_run_cons(m: ParserModel, input: Seq<u8>)
    requires
        input.len() > 0,
    ensures
        ({
            let stepped = parser_step(m, input[0]);
            let rest = parser_run(stepped.0, input.drop_first());
            &&& parser_run(m, input).0 == rest.0
            &&& parser_run(m, input).1 == stepped.1 + rest.1
            &&& parser_run(m, input).2 == stepped.2 + rest.2
        }),
{
}

/// An escaped `IAC IAC` in the Data state emits one literal 0xff byte and
/// raises no event.
pub proof fn lemma_iac_iac_escape(m: ParserModel)
    requires
        m.state == ParserState::Data,
    ensures
        ({
            let run = parser_run(m, seq![IAC, IAC]);
            &&& run.0.state == ParserState::Data
            &&& run.1 == seq![IAC]
            &&& run.2 == Seq::<EventModel>::empty()
        }),
{
    let input = seq![IAC, IAC];
    assert(input.drop_first() =~= seq![IAC]);
    assert(seq![IAC].drop_first() =~= Seq::<u8>::empty());
    let s0 = parser_step(m, IAC);
    lemma_parser_run_cons(m, input);
    lemma_parser_run_cons(s0.0, seq![IAC]);
    let run = parser_run(m, input);
    assert(run.1 =~= seq![IAC]);
    assert(run.2 =~= Seq::<EventModel>::empty());
}

proof fn lemma_subneg_payload(m: ParserModel, payload: Seq<u8>)
    requires
        m.state == ParserState::Subnegotiation,
        m.sb_option is Some,
        forall|i: int| 0 <= i < payload.len() ==> payload[i] != IAC,
    ensures
        ({
            let run = parser_run(m, payload + seq![IAC, SE]);
            &&& run.0.state == ParserState::Data
            &&& run.1 == Seq::<u8>::empty()
            &&& run.2 == seq![
                EventModel::Subnegotiation {
                    option: m.sb_option.unwrap(),
                    data: m.sb_data + payload,
                },
            ]
        }),
    decreases payload.len(),
{
    let input = payload + seq![IAC, SE];
    if payload.len() == 0 {
        assert(input =~= seq![IAC, SE]);
        assert(input[0] == IAC);
        assert(input.drop_first() =~= seq![SE]);
        assert(seq![SE].drop_first() =~= Seq::<u8>::empty());
        let s0 = parser_step(m, IAC);
        lemma_parser_run_cons(m, input);
        lemma_parser_run_cons(s0.0, seq![SE]);
        let run = parser_run(m, input);
        assert(m.sb_data + payload =~= m.sb_data);
        assert(run.1 =~= Seq::<u8>::empty());
        assert(run.2 =~= seq![
            EventModel::Subnegotiation { option: m.sb_option.unwrap(), data: m.sb_data + payload },
        ]);
    } else {
        assert(input[0] == payload[0]);
        let s0 = parser_step(m, payload[0]);
        assert(s0.0.state == ParserState::Subnegotiation);
        assert(s0.0.sb_option == m.sb_option);
        assert(s0.0.sb_data == m.sb_data.push(payload[0]));
        assert(input.drop_first() =~= payload.drop_first() + seq![IAC, SE]);
        assert(forall|i: int|
            0 <= i < payload.drop_first().len() ==> #[trigger] payload.drop_first()[i] != IAC);
        lemma_subneg_payload(s0.0, payload.drop_first());
        lemma_parser_run_cons(m, input);
        let run = parser_run(m, input);
        assert(m.sb_data.push(payload[0]) + payload.drop_first() =~= m.sb_data + payload);
        assert(run.1 =~= Seq::<u8>::empty());
        assert(run.2 =~= seq![
            EventModel::Subnegotiation { option: m.sb_option.unwrap(), data: m.sb_data + payload },
        ]);
    }
}

/// A complete `IAC SB <option> <payload> IAC SE` frame, fed to a fresh
/// parser, produces exactly one subnegotiation event carrying the option and
/// the payload, and no data bytes.  Together with `lemma_parser_run_append`,
/// any prefix/suffix split of the frame across two `process` calls produces
/// exactly that one event.
pub proof fn lemma_subnegotiation_frame(option: u8, payload: Seq<u8>)
    requires
        option != IAC,
        forall|i: int| 0 <= i < payload.len() ==> payload[i] != IAC,
    ensures
        ({
            let input = seq![IAC, SB, option] + payload + seq![IAC, SE];
            let run = parser_run(ParserModel::init(), input);
            &&& run.0.state == ParserState::Data
            &&& run.1 == Seq::<u8>::empty()
            &&& run.2 == seq![EventModel::Subnegotiation { option: option, data: payload }]
        }),
{
    let header = seq![IAC, SB, option];
    let body = payload + seq![IAC, SE];
    let input = header + payload + seq![IAC, SE];
    assert(input =~= header + body);
    assert(header.drop_first() =~= seq![SB, option]);
    assert(seq![SB, option].drop_first() =~= seq![option]);
    assert(seq![option].drop_first() =~= Seq::<u8>::empty());
    let m0 = ParserModel::init();
    let s0 = parser_step(m0, IAC);
    let s1 = parser_step(s0.0, SB);
    let s2 = parser_step(s1.0, option);
    lemma_parser_run_cons(m0, header);
    lemma_parser_run_cons(s0.0, seq![SB, option]);
    lemma_parser_run_cons(s1.0, seq![option]);
    let first = parser_run(m0, header);
    assert(first.0 == s2.0);
    assert(first.1 =~= Seq::<u8>::empty());
    assert(first.2 =~= Seq::<EventModel>::empty());
    assert(s2.0.state == ParserState::Subnegotiation);
    assert(s2.0.sb_option == Some(option));
    assert(s2.0.sb_data =~= Seq::<u8>::empty());
    lemma_subneg_payload(s2.0, payload);
    lemma_parser_run_append(m0, header, body);
    let run = parser_run(m0, input);
    assert(s2.0.sb_data + payload =~= payload);
    assert(run.1 =~= Seq::<u8>::empty());
    assert(run.2 =~= seq![EventModel::Subnegotiation { option: option, data: payload }]);
}

/// The parser with its subnegotiation option and accumulator.
pub struct TelnetParser {
    state: ParserState,
    sb_option: Option<u8>,
    sb_data: Vec<u8>,
}

/// What one `process` call produced: decoded application bytes and the
/// control events that completed during the chunk.
pub struct ParseResult {
    pub data: Vec<u8>,
    pub events: Vec<TelnetEvent>,
}

impl View for TelnetParser {
    type V = ParserModel;

    closed spec fn view(&self) -> ParserModel {
        ParserModel { state: self.state, sb_option: self.sb_option, sb_data: self.sb_data@ }
    }
}

impl TelnetParser {
    /// A parser in the initial (Data) state.
    pub fn new() -> (r: Self)
        ensures
            r@ == ParserModel::init(),
    {
        let r = TelnetParser { state: ParserState::Data, sb_option: None, sb_data: Vec::new() };
        proof {
            assert(r@ == ParserModel::init());
        }
        r
    }

    /// Feed a chunk of raw bytes through the state machine.  Returns exactly
    /// the data bytes and events that `parser_run` ascribes to this chunk
    /// from the parser's current state.
    pub fn process(&mut self, input: &[u8]) -> (r: ParseResult)
        ensures
            ({
                let run = parser_run(old(self)@, input@);
                &&& final(self)@ == run.0
                &&& r.data@ == run.1
                &&& r.events.deep_view() == run.2
            }),
    {
        let ghost whole = parser_run(old(self)@, input@);
        let mut data: Vec<u8> = Vec::new();
        let mut events: Vec<TelnetEvent> = Vec::new();
        let mut i: usize = 0;
        proof {
            assert(input@.skip(0) =~= input@);
        }
        while i < input.len()
            invariant
                i <= input@.len(),
                whole == parser_run(old(self)@, input@),
                ({
                    let rest = parser_run(self@, input@.skip(i as int));
                    &&& whole.0 == rest.0
                    &&& whole.1 == data@ + rest.1
                    &&& whole.2 == events.deep_view() + rest.2
                }),
            decreases input@.len() - i,
        {
            let byte = input[i];
            let ghost pre = self@;
            let ghost pre_data = data@;
            let ghost pre_events = events.deep_view();
            match self.state {
                ParserState::Data => {
                    if byte == IAC {
                        self.state = ParserState::Iac;
                    } else {
                        data.push(byte);
                    }
                },
                ParserState::Iac => {
                    if byte == IAC {
                        data.push(IAC);
                        self.state = ParserState::Data;
                    } else if byte == DO || byte == DONT || byte == WILL || byte == WONT {
                        self.state = ParserState::Command(byte);
                    } else if byte == SB {
                        self.state = ParserState::Subnegotiation;
                        self.sb_option = None;
                        self.sb_data = Vec::new();
                    } else {
                        self.state = ParserState::Data;
                    }
                },
                ParserState::Command(cmd) => {
                    events.push(TelnetEvent::Negotiation { command: cmd, option: byte });
                    self.state = ParserState::Data;
                },
                ParserState::Subnegotiation => {
                    if byte == IAC {
                        self.state = ParserState::SubIac;
                    } else if self.sb_option.is_none() {
                        self.sb_option = Some(byte);
                    } else {
                        self.sb_data.push(byte);
                    }
                },
                ParserState::SubIac => {
                    if byte == SE {
                        if let Some(option) = self.sb_option {
                            let mut frame: Vec<u8> = Vec::new();
                            core::mem::swap(&mut frame, &mut self.sb_data);
                            events.push(TelnetEvent::Subnegotiation { option, data: frame });
                            self.sb_option = None;
                        } else {
                            self.sb_data = Vec::new();
                        }
                        self.state = ParserState::Data;
                    } else if byte == IAC {
                        self.sb_data.push(IAC);
                        self.state = ParserState::Subnegotiation;
                    } else {
                        self.state = ParserState::Subnegotiation;
                    }
                },
            }
            proof {
                let stepped = parser_step(pre, byte);
                assert(self@ == stepped.0);
                assert(data@ == pre_data + stepped.1) by {
                    assert(pre_data + stepped.1 =~= data@);
                }
                assert(events.deep_view() == pre_events + stepped.2) by {
                    assert(pre_events + stepped.2 =~= events.deep_view());
                }
                assert(input@.skip(i as int).drop_first() =~= input@.skip(i + 1));
                assert(input@.skip(i as int)[0] == input@[i as int]);
                let rest_pre = parser_run(pre, input@.skip(i as int));
                let rest_post = parser_run(self@, input@.skip(i + 1));
                assert(rest_pre.1 == stepped.1 + rest_post.1);
                assert(rest_pre.2 == stepped.2 + rest_post.2);
                assert(whole.1 == data@ + rest_post.1) by {
                    assert((pre_data + stepped.1) + rest_post.1 =~= pre_data + (stepped.1
                        + rest_post.1));
                }
                assert(whole.2 == events.deep_view() + rest_post.2) by {
                    assert((pre_events + stepped.2) + rest_post.2 =~= pre_events + (stepped.2
                        + rest_post.2));
                }
            }
            i = i + 1;
        }
        proof {
            assert(input@.skip(input@.len() as int) =~= Seq::<u8>::empty());
            assert(whole.1 =~= data@);
            assert(whole.2 =~= events.deep_view());
        }
        ParseResult { data, events }
    }
}

/// Bytes of `s` with every 0xff doubled, as the Telnet data plane requires.
pub open spec fn escape_iac_spec(s: Seq<u8>) -> Seq<u8>
    decreases s.len(),
{
    if s.len() == 0 {
        Seq::empty()
    } else {
        (if s[0] == IAC {
            seq![IAC, IAC]
        } else {
            seq![s[0]]
        }) + escape_iac_spec(s.drop_first())
    }
}

pub proof fn lemma_escape_iac_concat(a: Seq<u8>, b: Seq<u8>)
    ensures
        escape_iac_spec(a + b) == escape_iac_spec(a) + escape_iac_spec(b),
    decreases a.len(),
{
    if a.len() == 0 {
        assert(a + b =~= b);
        assert(escape_iac_spec(a) + escape_iac_spec(b) =~= escape_iac_spec(b));
    } else {
        assert((a + b).drop_first() =~= a.drop_first() + b);
        lemma_escape_iac_concat(a.drop_first(), b);
        assert((a + b)[0] == a[0]);
        assert(escape_iac_spec(a + b) =~= escape_iac_spec(a) + escape_iac_spec(b));
    }
}

/// Double every 0xff in `bytes`.
pub fn escape_iac_bytes(bytes: &[u8]) -> (r: Vec<u8>)
    ensures
        r@ == escape_iac_spec(bytes@),
{
    let mut out: Vec<u8> = Vec::new();
    let mut i: usize = 0;
    proof {
        assert(bytes@.take(0) =~= Seq::<u8>::empty());
    }
    while i < bytes.len()
        invariant
            i <= bytes@.len(),
            out@ == escape_iac_spec(bytes@.take(i as int)),
        decreases bytes@.len() - i,
    {
        let b = bytes[i];
        let ghost pre = out@;
        if b == IAC {
            out.push(IAC);
            out.push(IAC);
        } else {
            out.push(b);
        }
        i = i + 1;
        proof {
            let single = seq![bytes@[i - 1]];
            assert(bytes@.take(i as int) =~= bytes@.take(i - 1) + single);
            lemma_escape_iac_concat(bytes@.take(i - 1), single);
            assert(single.len() == 1 && single[0] == bytes@[i - 1]);
            assert(single.drop_first() =~= Seq::<u8>::empty());
            assert(escape_iac_spec(Seq::<u8>::empty()) =~= Seq::<u8>::empty());
            assert(out@ =~= pre + escape_iac_spec(single));
        }
    }
    proof {
        assert(bytes@.take(bytes@.len() as int) =~= bytes@);
    }
    out
}

/// Escape application bytes for the Telnet data plane.
pub fn escape_iac(bytes: &[u8]) -> (r: Vec<u8>)
    ensures
        r@ == escape_iac_spec(bytes@),
{
    escape_iac_bytes(bytes)
}

/// A three-byte negotiation command `IAC <cmd> <option>`.
pub fn iac_command(cmd: u8, option: u8) -> (r: Vec<u8>)
    ensures
        r@ == seq![IAC, cmd, option],
{
    let mut out: Vec<u8> = Vec::new();
    out.push(IAC);
    out.push(cmd);
    out.push(option);
    proof {
        assert(out@ =~= seq![IAC, cmd, option]);
    }
    out
}

/// Outbound newline policy for Telnet sessions.
#[derive(Debug, Clone, PartialEq, Eq, Structural)]
pub enum TelnetLineEnding {
    Cr,
    Crlf,
    Lf,
    PassThrough,
}

impl Default for TelnetLineEnding {
    /// The policy used when none is configured.
    fn default() -> (r: Self)
        ensures
            r == TelnetLineEnding::Cr,
    {
        TelnetLineEnding::Cr
    }
}

/// What outbound normalization produces: `cr` replaces every newline with a
/// carriage return, `crlf` expands every newline to `\r\n`, and `lf` and
/// `pass_through` leave the bytes untouched.
pub open spec fn normalize_line_endings_spec(s: Seq<u8>, mode: TelnetLineEnding) -> Seq<u8>
    decreases s.len(),
{
    match mode {
        TelnetLineEnding::PassThrough => s,
        TelnetLineEnding::Lf => s,
        TelnetLineEnding::Cr => {
            if s.len() == 0 {
                Seq::empty()
            } else {
                seq![
                    if s[0] == 10u8 {
                        13u8
                    } else {
                        s[0]
                    },
                ] + normalize_line_endings_spec(s.drop_first(), mode)
            }
        },
        TelnetLineEnding::Crlf => {
            if s.len() == 0 {
                Seq::empty()
            } else {
                (if s[0] == 10u8 {
                    seq![13u8, 10u8]
                } else {
                    seq![s[0]]
                }) + normalize_line_endings_spec(s.drop_first(), mode)
            }
        },
    }
}

proof fn lemma_normalize_concat(a: Seq<u8>, b: Seq<u8>, mode: TelnetLineEnding)
    ensures
        normalize_line_endings_spec(a + b, mode) == normalize_line_endings_spec(a, mode)
            + normalize_line_endings_spec(b, mode),
    decreases a.len(),
{
    match mode {
        TelnetLineEnding::PassThrough | TelnetLineEnding::Lf => {
            assert(normalize_line_endings_spec(a + b, mode) =~= normalize_line_endings_spec(
                a,
                mode,
            ) + normalize_line_endings_spec(b, mode));
        },
        TelnetLineEnding::Cr | TelnetLineEnding::Crlf => {
            if a.len() == 0 {
                assert(a + b =~= b);
                assert(normalize_line_endings_spec(a, mode) =~= Seq::<u8>::empty());
                assert(normalize_line_endings_spec(a, mode) + normalize_line_endings_spec(b, mode)
                    =~= normalize_line_endings_spec(b, mode));
            } else {
                assert((a + b).drop_first() =~= a.drop_first() + b);
                lemma_normalize_concat(a.drop_first(), b, mode);
                assert((a + b)[0] == a[0]);
                assert(normalize_line_endings_spec(a + b, mode) =~= normalize_line_endings_spec(
                    a,
                    mode,
                ) + normalize_line_endings_spec(b, mode));
            }
        },
    }
}

/// Every newline is replaced by a carriage return and no other byte changes.
pub proof fn lemma_normalize_cr_pointwise(s: Seq<u8>)
    ensures
        normalize_line_endings_spec(s, TelnetLineEnding::Cr).len() == s.len(),
        forall|i: int|
            0 <= i < s.len() ==> normalize_line_endings_spec(s, TelnetLineEnding::Cr)[i] == (
            if s[i] == 10u8 {
                13u8
            } else {
                s[i]
            }),
    decreases s.len(),
{
    if s.len() > 0 {
        lemma_normalize_cr_pointwise(s.drop_first());
        let r = normalize_line_endings_spec(s, TelnetLineEnding::Cr);
        let rr = normalize_line_endings_spec(s.drop_first(), TelnetLineEnding::Cr);
        assert forall|i: int| 0 <= i < s.len() implies r[i] == (if s[i] == 10u8 {
            13u8
        } else {
            s[i]
        }) by {
            if i > 0 {
                assert(r[i] == rr[i - 1]);
                assert(s.drop_first()[i - 1] == s[i]);
            }
        }
    }
}

/// Rewrite outbound newlines according to the session's line-ending policy.
pub fn normalize_telnet_line_endings(bytes: &[u8], mode: TelnetLineEnding) -> (r: Vec<u8>)
    ensures
        r@ == normalize_line_endings_spec(bytes@, mode),
{
    let mut out: Vec<u8> = Vec::new();
    let mut i: usize = 0;
    proof {
        assert(bytes@.take(0) =~= Seq::<u8>::empty());
    }
    while i < bytes.len()
        invariant
            i <= bytes@.len(),
            out@ == normalize_line_endings_spec(bytes@.take(i as int), mode),
        decreases bytes@.len() - i,
    {
        let b = bytes[i];
        let ghost pre = out@;
        match mode {
            TelnetLineEnding::PassThrough | TelnetLineEnding::Lf => {
                out.push(b);
            },
            TelnetLineEnding::Cr => {
                if b == 10u8 {
                    out.push(13u8);
                } else {
                    out.push(b);
                }
            },
            TelnetLineEnding::Crlf => {
                if b == 10u8 {
                    out.push(13u8);
                    out.push(10u8);
                } else {
                    out.push(b);
                }
            },
        }
        i = i + 1;
        proof {
            let single = seq![bytes@[i - 1]];
            assert(bytes@.take(i as int) =~= bytes@.take(i - 1) + single);
            lemma_normalize_concat(bytes@.take(i - 1), single, mode);
            assert(single.len() == 1 && single[0] == bytes@[i - 1]);
            assert(single.drop_first() =~= Seq::<u8>::empty());
            assert(normalize_line_endings_spec(Seq::<u8>::empty(), mode) =~= Seq::<u8>::empty());
            assert(out@ =~= pre + normalize_line_endings_spec(single, mode));
        }
    }
    proof {
        assert(bytes@.take(bytes@.len() as int) =~= bytes@);
    }
    out
}

} // verus!
