//! The queue of commands that wait for the daemon. Commands leave in the
//! order in which they came, except that a command replaces a waiting
//! command of its kind: a burst of clicks collapses to the latest of each
//! kind.

use crate::tray::commands::{CommandKind, TrayCommand};
use vstd::prelude::*;

verus! {

/// A sequence of commands without those of one kind.
pub open spec fn without_kind(commands: Seq<TrayCommand>, kind: CommandKind) -> Seq<TrayCommand>
    decreases commands.len(),
{
    if commands.len() == 0 {
        commands
    } else if commands.last().spec_kind() == kind {
        without_kind(commands.drop_last(), kind)
    } else {
        without_kind(commands.drop_last(), kind).push(commands.last())
    }
}

/// What waits after the commands of `arrived` have come in, in this order:
/// of each kind the latest command, in the order of these latest arrivals.
pub open spec fn collapsed(arrived: Seq<TrayCommand>) -> Seq<TrayCommand>
    decreases arrived.len(),
{
    if arrived.len() == 0 {
        arrived
    } else {
        without_kind(collapsed(arrived.drop_last()), arrived.last().spec_kind()).push(
            arrived.last(),
        )
    }
}

/// No two commands of a sequence are of the same kind.
pub open spec fn distinct_kinds(commands: Seq<TrayCommand>) -> bool {
    forall|i: int, j: int|
        0 <= i < j < commands.len() ==> (#[trigger] commands[i]).spec_kind() != (
        #[trigger] commands[j]).spec_kind()
}

/// Some command of the sequence is of the kind.
pub open spec fn has_kind(commands: Seq<TrayCommand>, kind: CommandKind) -> bool {
    exists|i: int| 0 <= i < commands.len() && (#[trigger] commands[i]).spec_kind() == kind
}

/// Taking out a kind leaves a part of the sequence, in its order, that holds
/// nothing of the kind and everything else.
pub proof fn lemma_without_kind(commands: Seq<TrayCommand>, kind: CommandKind)
    ensures
        without_kind(commands, kind).len() <= commands.len(),
        !has_kind(without_kind(commands, kind), kind),
        forall|c: TrayCommand| #[trigger]
            without_kind(commands, kind).contains(c) <==> commands.contains(c) && c.spec_kind()
                != kind,
        distinct_kinds(commands) ==> distinct_kinds(without_kind(commands, kind)),
        !has_kind(commands, kind) ==> without_kind(commands, kind) == commands,
    decreases commands.len(),
{
    let out = without_kind(commands, kind);
    if commands.len() > 0 {
        let init = commands.drop_last();
        let last = commands.last();
        let rest = without_kind(init, kind);
        lemma_without_kind(init, kind);
        assert(commands =~= init.push(last));
        assert forall|c: TrayCommand| #[trigger] out.contains(c) <==> commands.contains(c)
            && c.spec_kind() != kind by {
            if out.contains(c) {
                let i = choose|i: int| 0 <= i < out.len() && out[i] == c;
                if last.spec_kind() != kind && i == rest.len() {
                    assert(commands[commands.len() - 1] == c);
                } else {
                    assert(rest[i] == c);
                    assert(rest.contains(c));
                    let j = choose|j: int| 0 <= j < init.len() && init[j] == c;
                    assert(commands[j] == c);
                }
            }
            if commands.contains(c) && c.spec_kind() != kind {
                let j = choose|j: int| 0 <= j < commands.len() && commands[j] == c;
                if j == commands.len() - 1 {
                    assert(out[out.len() - 1] == c);
                } else {
                    assert(init[j] == c);
                    assert(init.contains(c));
                    assert(rest.contains(c));
                    let i = choose|i: int| 0 <= i < rest.len() && rest[i] == c;
                    assert(out[i] == c);
                }
            }
        }
        if has_kind(out, kind) {
            let i = choose|i: int| 0 <= i < out.len() && (#[trigger] out[i]).spec_kind() == kind;
            assert(out.contains(out[i]));
            assert(false);
        }
        if distinct_kinds(commands) {
            assert forall|i: int, j: int| 0 <= i < j < init.len() implies (
            #[trigger] init[i]).spec_kind() != (#[trigger] init[j]).spec_kind() by {
                assert(init[i] == commands[i] && init[j] == commands[j]);
            }
            assert(distinct_kinds(rest));
            assert forall|i: int, j: int| 0 <= i < j < out.len() implies (
            #[trigger] out[i]).spec_kind() != (#[trigger] out[j]).spec_kind() by {
                if last.spec_kind() != kind && j == rest.len() {
                    assert(rest.contains(rest[i]));
                    assert(init.contains(rest[i]));
                    let k = choose|k: int| 0 <= k < init.len() && init[k] == rest[i];
                    assert(commands[k] == rest[i]);
                    assert(commands[commands.len() - 1] == last);
                } else {
                    assert(rest[i] == out[i] && rest[j] == out[j]);
                }
            }
        }
        if !has_kind(commands, kind) {
            assert(commands[commands.len() - 1].spec_kind() != kind);
            if has_kind(init, kind) {
                let i = choose|i: int|
                    0 <= i < init.len() && (#[trigger] init[i]).spec_kind() == kind;
                assert(commands[i].spec_kind() == kind);
            }
            assert(out =~= commands);
        }
    }
}

/// After any arrivals no two waiting commands are of the same kind, the
/// command that came last waits last, and a kind waits exactly if a command
/// of it has come.
pub proof fn lemma_collapsed(arrived: Seq<TrayCommand>)
    ensures
        distinct_kinds(collapsed(arrived)),
        collapsed(arrived).len() <= arrived.len(),
        arrived.len() > 0 ==> collapsed(arrived).len() > 0 && collapsed(arrived).last()
            == arrived.last(),
        forall|c: TrayCommand| #[trigger] collapsed(arrived).contains(c) ==> arrived.contains(c),
        forall|kind: CommandKind| #[trigger]
            has_kind(collapsed(arrived), kind) <==> has_kind(arrived, kind),
    decreases arrived.len(),
{
    let out = collapsed(arrived);
    if arrived.len() > 0 {
        let init = arrived.drop_last();
        let last = arrived.last();
        let before = collapsed(init);
        let kept = without_kind(before, last.spec_kind());
        lemma_collapsed(init);
        lemma_without_kind(before, last.spec_kind());
        assert(out == kept.push(last));
        assert forall|i: int, j: int| 0 <= i < j < out.len() implies (#[trigger] out[i]).spec_kind()
            != (#[trigger] out[j]).spec_kind() by {
            if j == kept.len() {
                assert(kept[i] == out[i]);
            } else {
                assert(kept[i] == out[i] && kept[j] == out[j]);
            }
        }
        assert forall|c: TrayCommand| #[trigger] out.contains(c) implies arrived.contains(c) by {
            let i = choose|i: int| 0 <= i < out.len() && out[i] == c;
            if i == kept.len() {
                assert(arrived[arrived.len() - 1] == c);
            } else {
                assert(kept[i] == c);
                assert(kept.contains(c));
                assert(before.contains(c));
                assert(init.contains(c));
                let j = choose|j: int| 0 <= j < init.len() && init[j] == c;
                assert(arrived[j] == c);
            }
        }
        assert forall|kind: CommandKind| #[trigger]
            has_kind(out, kind) <==> has_kind(arrived, kind) by {
            if has_kind(out, kind) {
                let i = choose|i: int|
                    0 <= i < out.len() && (#[trigger] out[i]).spec_kind() == kind;
                assert(out.contains(out[i]));
                assert(arrived.contains(out[i]));
                let j = choose|j: int| 0 <= j < arrived.len() && arrived[j] == out[i];
                assert(arrived[j].spec_kind() == kind);
            }
            if has_kind(arrived, kind) {
                if kind == last.spec_kind() {
                    assert(out[out.len() - 1].spec_kind() == kind);
                } else {
                    let j = choose|j: int|
                        0 <= j < arrived.len() && (#[trigger] arrived[j]).spec_kind() == kind;
                    assert(j < init.len());
                    assert(init[j].spec_kind() == kind);
                    assert(has_kind(init, kind));
                    assert(has_kind(before, kind));
                    let i = choose|i: int|
                        0 <= i < before.len() && (#[trigger] before[i]).spec_kind() == kind;
                    assert(before.contains(before[i]));
                    assert(kept.contains(before[i]));
                    let k = choose|k: int| 0 <= k < kept.len() && kept[k] == before[i];
                    assert(out[k].spec_kind() == kind);
                }
            }
        }
    }
}

/// Commands of different kinds wait in the order in which they came:
/// nothing but a command of the same kind changes the order.
pub proof fn lemma_distinct_kinds_keep_order(arrived: Seq<TrayCommand>)
    requires
        distinct_kinds(arrived),
    ensures
        collapsed(arrived) == arrived,
    decreases arrived.len(),
{
    if arrived.len() > 0 {
        let init = arrived.drop_last();
        let last = arrived.last();
        assert forall|i: int, j: int| 0 <= i < j < init.len() implies (
        #[trigger] init[i]).spec_kind() != (#[trigger] init[j]).spec_kind() by {
            assert(init[i] == arrived[i] && init[j] == arrived[j]);
        }
        lemma_distinct_kinds_keep_order(init);
        if has_kind(init, last.spec_kind()) {
            let i = choose|i: int|
                0 <= i < init.len() && (#[trigger] init[i]).spec_kind() == last.spec_kind();
            assert(arrived[i].spec_kind() == arrived[arrived.len() - 1].spec_kind());
            assert(false);
        }
        lemma_without_kind(init, last.spec_kind());
        assert(arrived =~= init.push(last));
    }
}

/// The commands that wait for the daemon.
#[derive(Debug)]
pub struct CommandQueue {
    waiting: Vec<TrayCommand>,
}

impl View for CommandQueue {
    type V = Seq<TrayCommand>;

    closed spec fn view(&self) -> Seq<TrayCommand> {
        self.waiting@
    }
}

impl CommandQueue {
    /// A queue in which nothing waits.
    pub fn new() -> (queue: Self)
        ensures
            queue@ == Seq::<TrayCommand>::empty(),
    {
        CommandQueue { waiting: Vec::new() }
    }

    /// Number of commands that wait.
    pub fn len(&self) -> (n: usize)
        ensures
            n == self@.len(),
    {
        self.waiting.len()
    }

    /// Whether nothing waits.
    pub fn is_empty(&self) -> (empty: bool)
        ensures
            empty == (self@.len() == 0),
    {
        self.waiting.len() == 0
    }

    /// Take a command into the queue. A waiting command of the same kind
    /// gives way to it.
    pub fn push(&mut self, command: TrayCommand)
        ensures
            final(self)@ == without_kind(old(self)@, command.spec_kind()).push(command),
    {
        let kind = command.kind();
        let ghost before = self.waiting@;
        let mut i: usize = 0;
        let ghost mut seen: int = 0;
        assert(before.take(0) =~= Seq::<TrayCommand>::empty());
        while i < self.waiting.len()
            invariant
                0 <= i <= self.waiting@.len(),
                i <= seen <= before.len(),
                self.waiting@.len() - i == before.len() - seen,
                self.waiting@.take(i as int) == without_kind(before.take(seen), kind),
                self.waiting@.skip(i as int) == before.skip(seen),
            decreases self.waiting@.len() - i,
        {
            proof {
                assert(self.waiting@[i as int] == self.waiting@.skip(i as int)[0]);
                assert(before[seen] == before.skip(seen)[0]);
                assert(before.take(seen + 1).drop_last() =~= before.take(seen));
                assert(before.take(seen + 1).last() == before[seen]);
            }
            if self.waiting[i].kind() == kind {
                let ghost shown = self.waiting@;
                self.waiting.remove(i);
                proof {
                    assert(self.waiting@.take(i as int) =~= shown.take(i as int));
                    assert(self.waiting@.skip(i as int) =~= shown.skip(i as int).skip(1));
                    assert(before.skip(seen).skip(1) =~= before.skip(seen + 1));
                    seen = seen + 1;
                }
            } else {
                proof {
                    assert(self.waiting@.take(i + 1) =~= self.waiting@.take(i as int).push(
                        self.waiting@[i as int],
                    ));
                    assert(self.waiting@.skip(i as int).skip(1) =~= self.waiting@.skip(i + 1));
                    assert(before.skip(seen).skip(1) =~= before.skip(seen + 1));
                    seen = seen + 1;
                }
                i = i + 1;
            }
        }
        proof {
            assert(self.waiting@.take(i as int) =~= self.waiting@);
            assert(before.take(seen) =~= before);
        }
        self.waiting.push(command);
    }

    /// Take out the command that has waited longest.
    pub fn pop(&mut self) -> (command: Option<TrayCommand>)
        ensures
            old(self)@.len() == 0 ==> command is None && final(self)@ == old(self)@,
            old(self)@.len() > 0 ==> command == Some(old(self)@[0]) && final(self)@ == old(
                self,
            )@.skip(1),
    {
        if self.waiting.len() == 0 {
            None
        } else {
            let command = self.waiting.remove(0);
            assert(self.waiting@ =~= old(self)@.skip(1));
            Some(command)
        }
    }
}

/// A queue that was empty holds, after any arrivals, the collapsed
/// arrivals.
pub proof fn lemma_push_collapses(waiting: Seq<TrayCommand>, arrived: Seq<TrayCommand>, next:
    TrayCommand)
    requires
        waiting == collapsed(arrived),
    ensures
        without_kind(waiting, next.spec_kind()).push(next) == collapsed(arrived.push(next)),
{
    assert(arrived.push(next).drop_last() =~= arrived);
}

} // verus!
