//! Telnet option negotiator: a simplified Q-method policy over two tables
//! (what we do locally, what the peer does), with NAWS window-size and
//! TTYPE terminal-type subnegotiation replies.
//!
//! Redundant affirmations from the peer are idempotent — no reply is sent
//! twice for an already-enabled option — while an explicit refusal is always
//! sent exactly once.

use vstd::prelude::*;

use crate::telnet::{
    escape_iac_spec, escape_iac_bytes, EventModel, TelnetEvent, DO, DONT, IAC, OPT_BINARY,
    OPT_ECHO, OPT_NAWS, OPT_SGA, OPT_TTYPE, SB, SE, TTYPE_IS, TTYPE_SEND, WILL, WONT,
};

verus! {

/// Whether this side offers to perform `option` itself.
pub open spec fn allow_local_spec(option: u8) -> bool {
    option == OPT_BINARY || option == OPT_SGA || option == OPT_TTYPE || option == OPT_NAWS
}

/// Whether this side accepts the peer performing `option`.
pub open spec fn allow_remote_spec(option: u8) -> bool {
    option == OPT_BINARY || option == OPT_ECHO || option == OPT_SGA
}

/// The three-byte reply `IAC <cmd> <option>`.
pub open spec fn iac_cmd_spec(cmd: u8, option: u8) -> Seq<u8> {
    seq![IAC, cmd, option]
}

/// A 16-bit value in network byte order.
pub open spec fn be16_bytes(x: u16) -> Seq<u8> {
    seq![(x / 256) as u8, (x % 256) as u8]
}

/// The NAWS subnegotiation frame announcing the window size, with every
/// 0xff inside the dimensions doubled.
pub open spec fn naws_payload(cols: u16, rows: u16) -> Seq<u8> {
    seq![IAC, SB, OPT_NAWS] + escape_iac_spec(be16_bytes(cols)) + escape_iac_spec(be16_bytes(rows))
        + seq![IAC, SE]
}

/// The TTYPE IS reply carrying the terminal name, with every 0xff doubled.
pub open spec fn ttype_payload(term: Seq<char>) -> Seq<u8> {
    seq![IAC, SB, OPT_TTYPE, TTYPE_IS] + escape_iac_spec(vstd::utf8::encode_utf8(term)) + seq![
        IAC,
        SE,
    ]
}

/// First match wins: the lookup a fresh-entries-first association list gives.
pub open spec fn assoc_lookup(s: Seq<(u8, bool)>, opt: u8) -> Option<bool>
    decreases s.len(),
{
    if s.len() == 0 {
        None
    } else if s[0].0 == opt {
        Some(s[0].1)
    } else {
        assoc_lookup(s.drop_first(), opt)
    }
}

/// Per-option enablement states, newest entry first.  A superseded entry
/// is shadowed rather than removed; only the handful of supported options
/// ever appears here.
pub struct OptionTable {
    entries: Vec<(u8, bool)>,
}

impl OptionTable {
    /// The recorded state of `opt`: `None` when never touched.
    pub closed spec fn lookup(self, opt: u8) -> Option<bool> {
        assoc_lookup(self.entries@, opt)
    }

    /// An empty table: every option reads as untouched.
    pub fn new() -> (r: Self)
        ensures
            forall|o: u8| #[trigger] r.lookup(o) is None,
    {
        let r = OptionTable { entries: Vec::new() };
        proof {
            assert(forall|o: u8| #[trigger] r.lookup(o) is None);
        }
        r
    }

    /// The recorded state of `opt`, if any.
    pub fn get(&self, opt: u8) -> (r: Option<bool>)
        ensures
            r == self.lookup(opt),
    {
        let mut i: usize = 0;
        let ghost s = self.entries@;
        proof {
            assert(s.skip(0) =~= s);
        }
        loop
            invariant_except_break
                i <= s.len(),
                s == self.entries@,
                assoc_lookup(s, opt) == assoc_lookup(s.skip(i as int), opt),
            ensures
                assoc_lookup(s, opt) is None,
            decreases s.len() - i,
        {
            if i >= self.entries.len() {
                proof {
                    assert(s.skip(i as int) =~= Seq::<(u8, bool)>::empty());
                }
                break ;
            }
            let entry = self.entries[i];
            proof {
                assert(s.skip(i as int)[0] == s[i as int]);
                assert(s.skip(i as int).drop_first() =~= s.skip(i + 1));
            }
            if entry.0 == opt {
                return Some(entry.1);
            }
            i = i + 1;
        }
        None
    }

    /// Record the state of `opt`, superseding any earlier entry.
    pub fn set(&mut self, opt: u8, enabled: bool)
        ensures
            final(self).lookup(opt) == Some(enabled),
            forall|o: u8| o != opt ==> #[trigger] final(self).lookup(o) == old(self).lookup(o),
    {
        self.entries.insert(0, (opt, enabled));
        proof {
            assert(self.entries@.drop_first() =~= old(self).entries@);
        }
    }
}

/// Option-negotiation state: the two tables, the terminal type, and the
/// current window size.
pub struct Negotiator {
    local_enabled: OptionTable,
    remote_enabled: OptionTable,
    term: String,
    cols: u16,
    rows: u16,
}

impl Negotiator {
    /// The recorded local state of an option.
    pub closed spec fn local_state(self, opt: u8) -> Option<bool> {
        self.local_enabled.lookup(opt)
    }

    /// The recorded remote state of an option.
    pub closed spec fn remote_state(self, opt: u8) -> Option<bool> {
        self.remote_enabled.lookup(opt)
    }

    /// Whether we currently perform `opt` locally.
    pub open spec fn local_on(self, opt: u8) -> bool {
        self.local_state(opt) == Some(true)
    }

    /// Whether the peer currently performs `opt`.
    pub open spec fn remote_on(self, opt: u8) -> bool {
        self.remote_state(opt) == Some(true)
    }

    /// The configured terminal name.
    pub closed spec fn term_view(self) -> Seq<char> {
        self.term@
    }

    /// The current window size as (cols, rows).
    pub closed spec fn size(self) -> (u16, u16) {
        (self.cols, self.rows)
    }

    /// A negotiator with both tables empty.
    pub fn new(term: String, cols: u16, rows: u16) -> (r: Self)
        ensures
            forall|o: u8| !(#[trigger] r.local_on(o)) && r.local_state(o) is None,
            forall|o: u8| !(#[trigger] r.remote_on(o)) && r.remote_state(o) is None,
            r.term_view() == term@,
            r.size() == (cols, rows),
    {
        Negotiator {
            local_enabled: OptionTable::new(),
            remote_enabled: OptionTable::new(),
            term,
            cols,
            rows,
        }
    }

    /// Whether we are willing to perform `option` ourselves.
    pub fn allow_local(&self, option: u8) -> (r: bool)
        ensures
            r == allow_local_spec(option),
    {
        option == OPT_BINARY || option == OPT_SGA || option == OPT_TTYPE || option == OPT_NAWS
    }

    /// Whether we accept the peer performing `option`.
    pub fn allow_remote(&self, option: u8) -> (r: bool)
        ensures
            r == allow_remote_spec(option),
    {
        option == OPT_BINARY || option == OPT_ECHO || option == OPT_SGA
    }

    /// Whether `option` is currently enabled on our side.
    pub fn is_local_enabled(&self, option: u8) -> (r: bool)
        ensures
            r == self.local_on(option),
    {
        match self.local_enabled.get(option) {
            Some(v) => v,
            None => false,
        }
    }

    /// Whether `option` is currently enabled on the peer's side.
    pub fn is_remote_enabled(&self, option: u8) -> (r: bool)
        ensures
            r == self.remote_on(option),
    {
        match self.remote_enabled.get(option) {
            Some(v) => v,
            None => false,
        }
    }

    /// Record the local state of `option`; nothing else changes.
    pub fn set_local(&mut self, option: u8, enabled: bool)
        ensures
            final(self).local_state(option) == Some(enabled),
            forall|o: u8|
                o != option ==> #[trigger] final(self).local_state(o) == old(self).local_state(o),
            forall|o: u8| #[trigger] final(self).remote_state(o) == old(self).remote_state(o),
            final(self).term_view() == old(self).term_view(),
            final(self).size() == old(self).size(),
    {
        self.local_enabled.set(option, enabled);
    }

    /// Record the remote state of `option`; nothing else changes.
    pub fn set_remote(&mut self, option: u8, enabled: bool)
        ensures
            final(self).remote_state(option) == Some(enabled),
            forall|o: u8|
                o != option ==> #[trigger] final(self).remote_state(o) == old(self).remote_state(
                    o,
                ),
            forall|o: u8| #[trigger] final(self).local_state(o) == old(self).local_state(o),
            final(self).term_view() == old(self).term_view(),
            final(self).size() == old(self).size(),
    {
        self.remote_enabled.set(option, enabled);
    }

    /// The NAWS frame for the current window size.
    pub fn build_naws(&self) -> (r: Vec<u8>)
        ensures
            r@ == naws_payload(self.size().0, self.size().1),
    {
        let mut payload: Vec<u8> = Vec::new();
        payload.push(IAC);
        payload.push(SB);
        payload.push(OPT_NAWS);
        let mut width: Vec<u8> = Vec::new();
        width.push((self.cols / 256) as u8);
        width.push((self.cols % 256) as u8);
        let mut height: Vec<u8> = Vec::new();
        height.push((self.rows / 256) as u8);
        height.push((self.rows % 256) as u8);
        proof {
            assert(width@ =~= be16_bytes(self.cols));
            assert(height@ =~= be16_bytes(self.rows));
        }
        let mut escaped_width = escape_iac_bytes(width.as_slice());
        let mut escaped_height = escape_iac_bytes(height.as_slice());
        payload.append(&mut escaped_width);
        payload.append(&mut escaped_height);
        payload.push(IAC);
        payload.push(SE);
        proof {
            assert(payload@ =~= naws_payload(self.size().0, self.size().1));
        }
        payload
    }

    /// The TTYPE IS frame carrying the configured terminal name.
    pub fn build_ttype(&self) -> (r: Vec<u8>)
        ensures
            r@ == ttype_payload(self.term_view()),
    {
        let mut payload: Vec<u8> = Vec::new();
        payload.push(IAC);
        payload.push(SB);
        payload.push(OPT_TTYPE);
        payload.push(TTYPE_IS);
        let mut escaped_term = escape_iac_bytes(self.term.as_str().as_bytes());
        payload.append(&mut escaped_term);
        payload.push(IAC);
        payload.push(SE);
        proof {
            assert(payload@ =~= ttype_payload(self.term_view()));
        }
        payload
    }

    /// Store the new dimensions; if NAWS is locally enabled, also return the
    /// frame announcing them.
    pub fn set_window_size(&mut self, cols: u16, rows: u16) -> (r: Option<Vec<u8>>)
        ensures
            final(self).size() == (cols, rows),
            final(self).term_view() == old(self).term_view(),
            forall|o: u8| #[trigger] final(self).local_state(o) == old(self).local_state(o),
            forall|o: u8| #[trigger] final(self).remote_state(o) == old(self).remote_state(o),
            old(self).local_on(OPT_NAWS) ==> (r is Some && r.unwrap()@ == naws_payload(
                cols,
                rows,
            )),
            !old(self).local_on(OPT_NAWS) ==> r is None,
    {
        self.cols = cols;
        self.rows = rows;
        if self.is_local_enabled(OPT_NAWS) {
            Some(self.build_naws())
        } else {
            None
        }
    }

    /// React to one parser event with the policy above: the returned frames
    /// are the replies to send, in order.
    pub fn handle_event(&mut self, event: TelnetEvent) -> (responses: Vec<Vec<u8>>)
        ensures
            handle_event_post(*old(self), *final(self), event.deep_view(), responses.deep_view()),
    {
        match event {
            TelnetEvent::Negotiation { command, option } => {
                let mut responses: Vec<Vec<u8>> = Vec::new();
                if command == DO {
                    if self.allow_local(option) {
                        if !self.is_local_enabled(option) {
                            self.set_local(option, true);
                            responses.push(crate::telnet::iac_command(WILL, option));
                            if option == OPT_NAWS {
                                responses.push(self.build_naws());
                                proof {
                                    assert(responses.deep_view() =~~= seq![
                                        iac_cmd_spec(WILL, option),
                                        naws_payload(old(self).size().0, old(self).size().1),
                                    ]);
                                }
                            } else {
                                proof {
                                    assert(responses.deep_view() =~~= seq![
                                        iac_cmd_spec(WILL, option),
                                    ]);
                                }
                            }
                        } else {
                            proof {
                                assert(responses.deep_view() =~~= Seq::<Seq<u8>>::empty());
                            }
                        }
                    } else if self.is_local_enabled(option) {
                        self.set_local(option, false);
                        responses.push(crate::telnet::iac_command(WONT, option));
                        proof {
                            assert(responses.deep_view() =~~= seq![iac_cmd_spec(WONT, option)]);
                        }
                    } else {
                        responses.push(crate::telnet::iac_command(WONT, option));
                        proof {
                            assert(responses.deep_view() =~~= seq![iac_cmd_spec(WONT, option)]);
                        }
                    }
                } else if command == DONT {
                    if self.is_local_enabled(option) {
                        self.set_local(option, false);
                        responses.push(crate::telnet::iac_command(WONT, option));
                        proof {
                            assert(responses.deep_view() =~~= seq![iac_cmd_spec(WONT, option)]);
                        }
                    } else {
                        proof {
                            assert(responses.deep_view() =~~= Seq::<Seq<u8>>::empty());
                        }
                    }
                } else if command == WILL {
                    if self.allow_remote(option) {
                        if !self.is_remote_enabled(option) {
                            self.set_remote(option, true);
                            responses.push(crate::telnet::iac_command(DO, option));
                            proof {
                                assert(responses.deep_view() =~~= seq![iac_cmd_spec(DO, option)]);
                            }
                        } else {
                            proof {
                                assert(responses.deep_view() =~~= Seq::<Seq<u8>>::empty());
                            }
                        }
                    } else if self.is_remote_enabled(option) {
                        self.set_remote(option, false);
                        responses.push(crate::telnet::iac_command(DONT, option));
                        proof {
                            assert(responses.deep_view() =~~= seq![iac_cmd_spec(DONT, option)]);
                        }
                    } else {
                        responses.push(crate::telnet::iac_command(DONT, option));
                        proof {
                            assert(responses.deep_view() =~~= seq![iac_cmd_spec(DONT, option)]);
                        }
                    }
                } else if command == WONT {
                    if self.is_remote_enabled(option) {
                        self.set_remote(option, false);
                        responses.push(crate::telnet::iac_command(DONT, option));
                        proof {
                            assert(responses.deep_view() =~~= seq![iac_cmd_spec(DONT, option)]);
                        }
                    } else {
                        proof {
                            assert(responses.deep_view() =~~= Seq::<Seq<u8>>::empty());
                        }
                    }
                } else {
                    proof {
                        assert(responses.deep_view() =~~= Seq::<Seq<u8>>::empty());
                    }
                }
                proof {
                    assert(handle_event_post(
                        *old(self),
                        *self,
                        event.deep_view(),
                        responses.deep_view(),
                    ));
                }
                responses
            },
            TelnetEvent::Subnegotiation { option, data } => {
                self.handle_subnegotiation(option, data)
            },
        }
    }

    /// Reply to a subnegotiation frame: only `TTYPE SEND` draws an answer.
    pub fn handle_subnegotiation(&mut self, option: u8, data: Vec<u8>) -> (responses: Vec<
        Vec<u8>,
    >)
        ensures
            subnegotiation_post(*old(self), *final(self), option, data@, responses.deep_view()),
    {
        let mut responses: Vec<Vec<u8>> = Vec::new();
        if option == OPT_TTYPE && data.len() > 0 && data[0] == TTYPE_SEND {
            responses.push(self.build_ttype());
            proof {
                assert(responses.deep_view() =~~= seq![ttype_payload(old(self).term_view())]);
            }
        } else {
            proof {
                assert(responses.deep_view() =~~= Seq::<Seq<u8>>::empty());
            }
        }
        proof {
            assert(subnegotiation_post(
                *old(self),
                *self,
                option,
                data@,
                responses.deep_view(),
            ));
        }
        responses
    }
}

/// The local table changed at most at `option`; the remote table, terminal
/// name and window size are untouched.
pub open spec fn local_changed_only(pre: Negotiator, post: Negotiator, option: u8) -> bool {
    &&& forall|o: u8| o != option ==> #[trigger] post.local_on(o) == pre.local_on(o)
    &&& forall|o: u8| #[trigger] post.remote_on(o) == pre.remote_on(o)
    &&& post.term_view() == pre.term_view()
    &&& post.size() == pre.size()
}

/// The remote table changed at most at `option`; everything else untouched.
pub open spec fn remote_changed_only(pre: Negotiator, post: Negotiator, option: u8) -> bool {
    &&& forall|o: u8| o != option ==> #[trigger] post.remote_on(o) == pre.remote_on(o)
    &&& forall|o: u8| #[trigger] post.local_on(o) == pre.local_on(o)
    &&& post.term_view() == pre.term_view()
    &&& post.size() == pre.size()
}

/// Nothing about the negotiator changed.
pub open spec fn negotiator_unchanged(pre: Negotiator, post: Negotiator) -> bool {
    &&& forall|o: u8| #[trigger] post.local_on(o) == pre.local_on(o)
    &&& forall|o: u8| #[trigger] post.remote_on(o) == pre.remote_on(o)
    &&& post.term_view() == pre.term_view()
    &&& post.size() == pre.size()
}

/// The negotiation policy, command by command.  Idempotence is explicit: a
/// redundant `DO` for an enabled option or a redundant `DONT` for a disabled
/// one draws no reply at all, while a refused option always draws exactly
/// one `WONT`/`DONT`.
pub open spec fn negotiate_post(
    pre: Negotiator,
    post: Negotiator,
    command: u8,
    option: u8,
    responses: Seq<Seq<u8>>,
) -> bool {
    if command == DO {
        if allow_local_spec(option) {
            if !pre.local_on(option) {
                &&& post.local_on(option)
                &&& local_changed_only(pre, post, option)
                &&& responses == if option == OPT_NAWS {
                    seq![
                        iac_cmd_spec(WILL, option),
                        naws_payload(pre.size().0, pre.size().1),
                    ]
                } else {
                    seq![iac_cmd_spec(WILL, option)]
                }
            } else {
                &&& negotiator_unchanged(pre, post)
                &&& responses == Seq::<Seq<u8>>::empty()
            }
        } else {
            &&& !post.local_on(option)
            &&& local_changed_only(pre, post, option)
            &&& responses == seq![iac_cmd_spec(WONT, option)]
        }
    } else if command == DONT {
        if pre.local_on(option) {
            &&& !post.local_on(option)
            &&& local_changed_only(pre, post, option)
            &&& responses == seq![iac_cmd_spec(WONT, option)]
        } else {
            &&& negotiator_unchanged(pre, post)
            &&& responses == Seq::<Seq<u8>>::empty()
        }
    } else if command == WILL {
        if allow_remote_spec(option) {
            if !pre.remote_on(option) {
                &&& post.remote_on(option)
                &&& remote_changed_only(pre, post, option)
                &&& responses == seq![iac_cmd_spec(DO, option)]
            } else {
                &&& negotiator_unchanged(pre, post)
                &&& responses == Seq::<Seq<u8>>::empty()
            }
        } else {
            &&& !post.remote_on(option)
            &&& remote_changed_only(pre, post, option)
            &&& responses == seq![iac_cmd_spec(DONT, option)]
        }
    } else if command == WONT {
        if pre.remote_on(option) {
            &&& !post.remote_on(option)
            &&& remote_changed_only(pre, post, option)
            &&& responses == seq![iac_cmd_spec(DONT, option)]
        } else {
            &&& negotiator_unchanged(pre, post)
            &&& responses == Seq::<Seq<u8>>::empty()
        }
    } else {
        &&& negotiator_unchanged(pre, post)
        &&& responses == Seq::<Seq<u8>>::empty()
    }
}

/// Only `TTYPE SEND` draws a reply: the TTYPE IS frame with the terminal
/// name.  The negotiator state never changes.
pub open spec fn subnegotiation_post(
    pre: Negotiator,
    post: Negotiator,
    option: u8,
    data: Seq<u8>,
    responses: Seq<Seq<u8>>,
) -> bool {
    &&& negotiator_unchanged(pre, post)
    &&& responses == if option == OPT_TTYPE && data.len() > 0 && data[0] == TTYPE_SEND {
        seq![ttype_payload(pre.term_view())]
    } else {
        Seq::<Seq<u8>>::empty()
    }
}

/// Dispatch of `handle_event`'s contract over the two event kinds.
pub open spec fn handle_event_post(
    pre: Negotiator,
    post: Negotiator,
    event: EventModel,
    responses: Seq<Seq<u8>>,
) -> bool {
    match event {
        EventModel::Negotiation { command, option } => negotiate_post(
            pre,
            post,
            command,
            option,
            responses,
        ),
        EventModel::Subnegotiation { option, data } => subnegotiation_post(
            pre,
            post,
            option,
            data,
            responses,
        ),
    }
}

} // verus!
