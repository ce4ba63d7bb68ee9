//! Sequencing and reply dispatch of the command emitter.
//!
//! The emitter owns a monotonically increasing, wrapping sequence number
//! and a pending table mapping command pairs to their single waiter.  The
//! socket work around it (send, the receive worker's loop, the channels)
//! lives with the embedding program; every decision it takes is a function
//! here.

use vstd::prelude::*;
use crate::control_frame::{decode_frame, spec_decode_frame, ProtocolError};
use crate::frames::{Cmd, CommandError, CommonResp};

verus! {

/// The sequence number used after `s`: one more, wrapping to zero.
pub open spec fn spec_next_seq(s: u16) -> u16 {
    if s == 0xFFFF {
        0
    } else {
        (s + 1) as u16
    }
}

/// The sequence number after `n` commands starting from `start`.
pub open spec fn spec_seq_after(start: u16, n: nat) -> u16
    decreases n,
{
    if n == 0 {
        start
    } else {
        spec_next_seq(spec_seq_after(start, (n - 1) as nat))
    }
}

/// The sequence counter is addition modulo 65536.
pub proof fn lemma_seq_after_mod(start: u16, n: nat)
    ensures
        spec_seq_after(start, n) as int == (start + n) % 0x10000,
    decreases n,
{
    if n > 0 {
        lemma_seq_after_mod(start, (n - 1) as nat);
    }
}

/// Sequence-number wrap: counting from the sequence-zero command, after
/// 65535 further successful commands the next command uses sequence
/// number zero again.
pub proof fn lemma_seq_wraps()
    ensures
        spec_seq_after(1, 65535) == 0,
        forall|start: u16| #![trigger spec_seq_after(start, 0x10000)]
            spec_seq_after(start, 0x10000) == start,
{
    lemma_seq_after_mod(1, 65535);
    assert forall|start: u16| #[trigger] spec_seq_after(start, 0x10000) == start by {
        lemma_seq_after_mod(start, 0x10000);
    }
}

/// One row of the pending table.
#[derive(Clone, Copy, Debug, PartialEq, Eq, Structural)]
pub struct PendingEntry {
    /// The command pair the row is keyed by.
    pub cmd: Cmd,
    /// Whether a caller is currently waiting on this row: the per-id latch.
    pub waiting: bool,
}

/// Sequencing and dispatch state of the command emitter.
pub struct EmitterCore {
    seq_num: u16,
    pending: Vec<PendingEntry>,
}

impl EmitterCore {
    /// The pending table rows.
    pub closed spec fn entries(&self) -> Seq<PendingEntry> {
        self.pending@
    }

    /// The next sequence number to hand out.
    pub closed spec fn spec_seq(&self) -> u16 {
        self.seq_num
    }

    /// Command pairs that have a row (a reusable reply channel).
    pub open spec fn registered(&self) -> Set<Cmd> {
        Set::new(|c: Cmd| exists|i: int| 0 <= i < self.entries().len() && self.entries()[i].cmd == c)
    }

    /// Command pairs whose row has a waiter right now.
    pub open spec fn waiting(&self) -> Set<Cmd> {
        Set::new(
            |c: Cmd|
                exists|i: int|
                    0 <= i < self.entries().len() && self.entries()[i].cmd == c
                        && self.entries()[i].waiting,
        )
    }

    /// Well-formedness: one row per command pair.
    pub open spec fn wf(&self) -> bool {
        forall|i: int, j: int|
            0 <= i < j < self.entries().len() ==> self.entries()[i].cmd != self.entries()[j].cmd
    }

    /// A fresh emitter: sequence number zero, no rows.
    pub fn new() -> (r: EmitterCore)
        ensures
            r.wf(),
            r.spec_seq() == 0,
            r.entries().len() == 0,
    {
        EmitterCore { seq_num: 0, pending: Vec::new() }
    }

    /// The next sequence number to hand out.
    pub fn seq_num(&self) -> (r: u16)
        ensures
            r == self.spec_seq(),
    {
        self.seq_num
    }

    /// Find the row of a command pair.
    fn find(&self, cmd: Cmd) -> (r: Option<usize>)
        ensures
            match r {
                Some(i) => i < self.entries().len() && self.entries()[i as int].cmd == cmd,
                None => forall|i: int|
                    0 <= i < self.entries().len() ==> self.entries()[i].cmd != cmd,
            },
    {
        let n = self.pending.len();
        let mut i: usize = 0;
        while i < n
            invariant
                i <= n,
                n == self.entries().len(),
                forall|j: int| 0 <= j < i ==> self.entries()[j].cmd != cmd,
            decreases n - i,
        {
            if self.pending[i].cmd.cmd_set == cmd.cmd_set && self.pending[i].cmd.cmd_id
                == cmd.cmd_id {
                return Some(i);
            }
            i = i + 1;
        }
        None
    }

    /// Begin a command: if no caller is already waiting on this command
    /// pair, latch its row, hand out the current sequence number and step
    /// the counter (wrapping); otherwise change nothing.
    pub fn begin_command(&mut self, cmd: Cmd) -> (r: Option<u16>)
        requires
            old(self).wf(),
        ensures
            final(self).wf(),
            match r {
                None => *final(self) == *old(self) && old(self).waiting().contains(cmd),
                Some(seq) => {
                    &&& !old(self).waiting().contains(cmd)
                    &&& seq == old(self).spec_seq()
                    &&& final(self).spec_seq() == spec_next_seq(old(self).spec_seq())
                    &&& final(self).waiting() =~= old(self).waiting().insert(cmd)
                    &&& final(self).registered() =~= old(self).registered().insert(cmd)
                },
            },
    {
        let ghost pre = *self;
        match self.find(cmd) {
            Some(i) => {
                if self.pending[i].waiting {
                    proof {
                        assert(pre.waiting().contains(cmd));
                    }
                    return None;
                }
                let mut entry = self.pending[i];
                entry.waiting = true;
                self.pending.set(i, entry);
                proof {
                    lemma_unique_row(pre, i as int, cmd);
                    assert forall|c: Cmd| self.waiting().contains(c) implies pre.waiting().insert(
                        cmd,
                    ).contains(c) by {
                        let k = choose|k: int|
                            0 <= k < self.entries().len() && self.entries()[k].cmd == c
                                && self.entries()[k].waiting;
                        if k != i {
                            assert(pre.entries()[k].cmd == c && pre.entries()[k].waiting);
                        }
                    }
                    assert forall|c: Cmd| pre.waiting().insert(cmd).contains(c)
                        implies self.waiting().contains(c) by {
                        if c == cmd {
                            assert(self.entries()[i as int].cmd == c
                                && self.entries()[i as int].waiting);
                        } else {
                            let k = choose|k: int|
                                0 <= k < pre.entries().len() && pre.entries()[k].cmd == c
                                    && pre.entries()[k].waiting;
                            assert(self.entries()[k].cmd == c && self.entries()[k].waiting);
                        }
                    }
                    assert(self.waiting() =~= pre.waiting().insert(cmd));
                    assert forall|c: Cmd| self.registered().contains(c) <==> pre.registered()
                        .contains(c) by {
                        if self.registered().contains(c) {
                            let k = choose|k: int|
                                0 <= k < self.entries().len() && self.entries()[k].cmd == c;
                            assert(pre.entries()[k].cmd == c);
                        }
                        if pre.registered().contains(c) {
                            let k = choose|k: int|
                                0 <= k < pre.entries().len() && pre.entries()[k].cmd == c;
                            assert(self.entries()[k].cmd == c);
                        }
                    }
                    assert(pre.registered().contains(cmd));
                    assert(self.registered() =~= pre.registered().insert(cmd));
                }
            },
            None => {
                self.pending.push(PendingEntry { cmd, waiting: true });
                proof {
                    assert(!pre.waiting().contains(cmd));
                    assert forall|c: Cmd| self.waiting().contains(c) implies pre.waiting().insert(
                        cmd,
                    ).contains(c) by {
                        let i = choose|i: int|
                            0 <= i < self.entries().len() && self.entries()[i].cmd == c
                                && self.entries()[i].waiting;
                        if i < pre.entries().len() {
                            assert(pre.waiting().contains(c));
                        }
                    }
                    assert forall|c: Cmd| self.registered().contains(c) implies pre.registered()
                        .insert(cmd).contains(c) by {
                        let i = choose|i: int|
                            0 <= i < self.entries().len() && self.entries()[i].cmd == c;
                        if i < pre.entries().len() {
                            assert(pre.registered().contains(c));
                        }
                    }
                    let new_index = pre.entries().len() as int;
                    assert(self.entries()[new_index].cmd == cmd && self.entries()[new_index].waiting);
                    assert forall|c: Cmd| pre.waiting().insert(cmd).contains(c)
                        implies self.waiting().contains(c) by {
                        if c != cmd {
                            let k = choose|k: int|
                                0 <= k < pre.entries().len() && pre.entries()[k].cmd == c
                                    && pre.entries()[k].waiting;
                            assert(self.entries()[k].cmd == c && self.entries()[k].waiting);
                        }
                    }
                    assert forall|c: Cmd| pre.registered().insert(cmd).contains(c)
                        implies self.registered().contains(c) by {
                        if c != cmd {
                            let k = choose|k: int|
                                0 <= k < pre.entries().len() && pre.entries()[k].cmd == c;
                            assert(self.entries()[k].cmd == c);
                        }
                    }
                    assert(self.waiting() =~= pre.waiting().insert(cmd));
                    assert(self.registered() =~= pre.registered().insert(cmd));
                }
            },
        }
        let seq = self.seq_num;
        if self.seq_num == 0xFFFF {
            self.seq_num = 0;
        } else {
            self.seq_num = self.seq_num + 1;
        }
        Some(seq)
    }

    /// Deliver a reply for a command pair to its waiter, if one is waiting:
    /// the latch is released; a reply nobody waits for is ignored.
    pub fn deliver(&mut self, cmd: Cmd) -> (r: bool)
        requires
            old(self).wf(),
        ensures
            final(self).wf(),
            r == old(self).waiting().contains(cmd),
            final(self).spec_seq() == old(self).spec_seq(),
            final(self).registered() =~= old(self).registered(),
            final(self).waiting() =~= old(self).waiting().remove(cmd),
            !r ==> *final(self) == *old(self),
    {
        let ghost pre = *self;
        match self.find(cmd) {
            Some(i) => {
                if self.pending[i].waiting {
                    let mut entry = self.pending[i];
                    entry.waiting = false;
                    self.pending.set(i, entry);
                    proof {
                        lemma_unique_row(pre, i as int, cmd);
                        assert(pre.waiting().contains(cmd));
                        assert forall|c: Cmd| self.waiting().contains(c) implies pre.waiting()
                            .remove(cmd).contains(c) by {
                            let k = choose|k: int|
                                0 <= k < self.entries().len() && self.entries()[k].cmd == c
                                    && self.entries()[k].waiting;
                            assert(pre.entries()[k].cmd == c && pre.entries()[k].waiting);
                        }
                        assert forall|c: Cmd| pre.waiting().remove(cmd).contains(c)
                            implies self.waiting().contains(c) by {
                            let k = choose|k: int|
                                0 <= k < pre.entries().len() && pre.entries()[k].cmd == c
                                    && pre.entries()[k].waiting;
                            assert(self.entries()[k].cmd == c && self.entries()[k].waiting);
                        }
                        assert(self.waiting() =~= pre.waiting().remove(cmd));
                        assert forall|c: Cmd| self.registered().contains(c) <==> pre.registered()
                            .contains(c) by {
                            if self.registered().contains(c) {
                                let k = choose|k: int|
                                    0 <= k < self.entries().len() && self.entries()[k].cmd == c;
                                assert(pre.entries()[k].cmd == c);
                            }
                            if pre.registered().contains(c) {
                                let k = choose|k: int|
                                    0 <= k < pre.entries().len() && pre.entries()[k].cmd == c;
                                assert(self.entries()[k].cmd == c);
                            }
                        }
                        assert(self.registered() =~= pre.registered());
                    }
                    true
                } else {
                    proof {
                        lemma_unique_row(pre, i as int, cmd);
                        assert(!pre.waiting().contains(cmd));
                        assert(pre.waiting().remove(cmd) =~= pre.waiting());
                    }
                    false
                }
            },
            None => {
                proof {
                    assert(!pre.waiting().contains(cmd));
                    assert(pre.waiting().remove(cmd) =~= pre.waiting());
                }
                false
            },
        }
    }

    /// The receive worker's step for one datagram: decode the envelope,
    /// key the reply by the first two body bytes, and release the waiter
    /// of that command pair.  A reply is delivered whenever one is owed:
    /// the step returns nothing only for a malformed frame, a body too
    /// short to carry a command pair, or a reply nobody waits for, and
    /// then the state is unchanged.
    pub fn handle_datagram(&mut self, buf: &[u8]) -> (r: Option<(Cmd, Vec<u8>)>)
        requires
            old(self).wf(),
        ensures
            final(self).wf(),
            final(self).spec_seq() == old(self).spec_seq(),
            match r {
                Some((cmd, body)) => {
                    &&& spec_decode_frame(buf@) matches Ok((t, seq, b)) && b == body@
                    &&& body@.len() >= 2
                    &&& cmd == (Cmd { cmd_set: body@[0], cmd_id: body@[1] })
                    &&& old(self).waiting().contains(cmd)
                    &&& final(self).waiting() =~= old(self).waiting().remove(cmd)
                    &&& final(self).registered() =~= old(self).registered()
                },
                None => {
                    &&& *final(self) == *old(self)
                    &&& match spec_decode_frame(buf@) {
                        Err(_) => true,
                        Ok((t, seq, b)) => b.len() < 2 || !old(self).waiting().contains(
                            Cmd { cmd_set: b[0], cmd_id: b[1] },
                        ),
                    }
                },
            },
    {
        match decode_frame(buf) {
            Err(_) => None,
            Ok((_cmd_type, _seq, body)) => {
                if body.len() < 2 {
                    return None;
                }
                let cmd = Cmd { cmd_set: body[0], cmd_id: body[1] };
                if self.deliver(cmd) {
                    Some((cmd, body))
                } else {
                    None
                }
            },
        }
    }
}

/// In a well-formed table, the row found for a command pair is the only
/// one with that pair.
proof fn lemma_unique_row(e: EmitterCore, i: int, cmd: Cmd)
    requires
        e.wf(),
        0 <= i < e.entries().len(),
        e.entries()[i].cmd == cmd,
    ensures
        forall|j: int| 0 <= j < e.entries().len() && j != i ==> e.entries()[j].cmd != cmd,
{
    assert forall|j: int| 0 <= j < e.entries().len() && j != i implies e.entries()[j].cmd != cmd by {
        if j < i {
            assert(e.entries()[j].cmd != e.entries()[i].cmd);
        } else {
            assert(e.entries()[i].cmd != e.entries()[j].cmd);
        }
    }
}

/// The caller's view of a reply: decode the body into the generic status
/// record and elevate a non-zero status to a device error.
pub fn complete_command(cmd: Cmd, body: &[u8]) -> (r: Result<CommonResp, CommandError>)
    ensures
        match CommonResp::spec_decode_body(body@) {
            Some(resp) => if resp.ret_code == 0 {
                r == Ok::<CommonResp, CommandError>(resp)
            } else {
                r == Err::<CommonResp, CommandError>(CommandError::DeviceStatus(resp.ret_code))
            },
            None => r == Err::<CommonResp, CommandError>(
                CommandError::Protocol(ProtocolError::BodyDecode),
            ),
        },
{
    match CommonResp::decode_body(body) {
        Err(_) => Err(CommandError::Protocol(ProtocolError::BodyDecode)),
        Ok(resp) => {
            if resp.ret_code == 0 {
                Ok(resp)
            } else {
                Err(CommandError::DeviceStatus(resp.ret_code))
            }
        },
    }
}

} // verus!
