use vstd::prelude::*;

use crate::channel::{after_send, after_take, ResultChannel, Slot};
use crate::Priority;

verus! {

/// A unit of asynchronous work as the host loop runs it: each poll either
/// suspends (while `suspensions` is not zero) or completes with `output`.
pub struct Work<T> {
    pub suspensions: u64,
    pub output: T,
}

/// Work waiting in the microtask queue, with the channel it reports to.
pub struct Task<T> {
    pub handle: usize,
    pub work: Work<T>,
}

/// A callback waiting for an idle moment, with the channel it reports to.
/// The work is synchronous: when it runs it completes with `output`.
pub struct IdleTask<T> {
    pub handle: usize,
    pub output: T,
}

/// The consuming end of one spawned task's result channel.
pub struct JoinHandle {
    id: usize,
}

impl JoinHandle {
    /// The index of the channel this handle reads.
    pub closed spec fn channel(&self) -> nat {
        self.id as nat
    }
}

/// A single-threaded host event loop with a microtask phase and an idle
/// phase. Every spawned task owns one result channel, read through its
/// join handle.
pub struct HostLoop<T> {
    channels: Vec<ResultChannel<T>>,
    microtasks: Vec<Task<T>>,
    idle: Vec<IdleTask<T>>,
}

/// The task after one poll that suspended.
pub open spec fn suspended<T>(t: Task<T>) -> Task<T> {
    Task { handle: t.handle, work: Work { suspensions: (t.work.suspensions - 1) as u64, output: t.work.output } }
}

impl<T> HostLoop<T> {
    /// The state of every result channel, indexed by handle.
    pub closed spec fn channels(&self) -> Seq<Slot<T>> {
        self.channels@.map_values(|c: ResultChannel<T>| c@)
    }

    /// The microtask queue, front first.
    pub closed spec fn microtasks(&self) -> Seq<Task<T>> {
        self.microtasks@
    }

    /// The idle callbacks, in the order they were registered.
    pub closed spec fn idle_tasks(&self) -> Seq<IdleTask<T>> {
        self.idle@
    }

    /// Whether `h` names a channel of this loop.
    pub open spec fn issued(&self, h: &JoinHandle) -> bool {
        h.channel() < self.channels().len()
    }

    /// Every queued unit of work reports to its own channel, which is still
    /// pending: no two producers share a channel.
    pub open spec fn wf(&self) -> bool {
        let c = self.channels();
        let m = self.microtasks();
        let i = self.idle_tasks();
        &&& forall|a: int| 0 <= a < m.len() ==> m[a].handle < c.len() && c[m[a].handle as int] is Pending
        &&& forall|a: int| 0 <= a < i.len() ==> i[a].handle < c.len() && c[i[a].handle as int] is Pending
        &&& forall|a: int, b: int| 0 <= a < b < m.len() ==> m[a].handle != m[b].handle
        &&& forall|a: int, b: int| 0 <= a < b < i.len() ==> i[a].handle != i[b].handle
        &&& forall|a: int, b: int| 0 <= a < m.len() && 0 <= b < i.len() ==> m[a].handle != i[b].handle
    }

    /// `post` is `pre` after one poll of the front microtask: a task that
    /// completes fills its channel, one that suspends goes to the back.
    pub open spec fn microtask_step(pre: Self, post: Self) -> bool {
        let t = pre.microtasks()[0];
        &&& pre.microtasks().len() > 0
        &&& post.idle_tasks() == pre.idle_tasks()
        &&& if t.work.suspensions == 0 {
            &&& post.microtasks() == pre.microtasks().drop_first()
            &&& post.channels() == pre.channels().update(
                t.handle as int,
                after_send(pre.channels()[t.handle as int], t.work.output),
            )
        } else {
            &&& post.microtasks() == pre.microtasks().drop_first().push(suspended(t))
            &&& post.channels() == pre.channels()
        }
    }

    /// `post` is `pre` after the host reached an idle moment and ran the
    /// oldest idle callback.
    pub open spec fn idle_step(pre: Self, post: Self) -> bool {
        let t = pre.idle_tasks()[0];
        &&& pre.idle_tasks().len() > 0
        &&& post.microtasks() == pre.microtasks()
        &&& post.idle_tasks() == pre.idle_tasks().drop_first()
        &&& post.channels() == pre.channels().update(
            t.handle as int,
            after_send(pre.channels()[t.handle as int], t.output),
        )
    }

    /// A loop with nothing queued.
    pub fn new() -> (r: Self)
        ensures
            r.wf(),
            r.channels().len() == 0,
            r.microtasks().len() == 0,
            r.idle_tasks().len() == 0,
    {
        let r = HostLoop { channels: Vec::new(), microtasks: Vec::new(), idle: Vec::new() };
        assert(r.channels() =~= Seq::<Slot<T>>::empty());
        r
    }

    proof fn lemma_push_channel(pre: Self, post: Self)
        requires
            pre.wf(),
            post.channels() == pre.channels().push(Slot::Pending),
        ensures
            forall|a: int| 0 <= a < pre.microtasks().len()
                ==> post.channels()[pre.microtasks()[a].handle as int] is Pending,
            forall|a: int| 0 <= a < pre.idle_tasks().len()
                ==> post.channels()[pre.idle_tasks()[a].handle as int] is Pending,
    {
        assert forall|a: int| 0 <= a < pre.microtasks().len() implies post.channels()[pre.microtasks()[a].handle as int] is Pending by {
            assert(pre.microtasks()[a].handle < pre.channels().len());
        }
        assert forall|a: int| 0 <= a < pre.idle_tasks().len() implies post.channels()[pre.idle_tasks()[a].handle as int] is Pending by {
            assert(pre.idle_tasks()[a].handle < pre.channels().len());
        }
    }

    /// Opens a fresh pending channel and returns its index.
    fn open_channel(&mut self) -> (id: usize)
        requires
            old(self).wf(),
            old(self).channels().len() < usize::MAX,
        ensures
            id == old(self).channels().len(),
            final(self).channels() == old(self).channels().push(Slot::Pending),
            final(self).microtasks() == old(self).microtasks(),
            final(self).idle_tasks() == old(self).idle_tasks(),
    {
        let id = self.channels.len();
        self.channels.push(ResultChannel::new());
        assert(self.channels() =~= old(self).channels().push(Slot::Pending));
        id
    }

    /// Submits `work` to the microtask queue and returns the handle of its
    /// result. Nothing runs now: the new channel is pending until a later
    /// microtask step completes the work.
    pub fn spawn_local(&mut self, work: Work<T>) -> (h: JoinHandle)
        requires
            old(self).wf(),
            old(self).channels().len() < usize::MAX,
        ensures
            final(self).wf(),
            h.channel() == old(self).channels().len(),
            final(self).channels() == old(self).channels().push(Slot::Pending),
            final(self).microtasks() == old(self).microtasks().push(
                Task { handle: h.channel() as usize, work },
            ),
            final(self).idle_tasks() == old(self).idle_tasks(),
    {
        let ghost pre = *self;
        let id = self.open_channel();
        proof { Self::lemma_push_channel(pre, *self); }
        self.microtasks.push(Task { handle: id, work });
        JoinHandle { id }
    }

    /// Registers a callback for the next idle moment that completes with
    /// `output`, and returns the handle of its result. The host may never
    /// become idle, and the channel then stays pending.
    pub fn spawn_idle(&mut self, output: T) -> (h: JoinHandle)
        requires
            old(self).wf(),
            old(self).channels().len() < usize::MAX,
        ensures
            final(self).wf(),
            h.channel() == old(self).channels().len(),
            final(self).channels() == old(self).channels().push(Slot::Pending),
            final(self).microtasks() == old(self).microtasks(),
            final(self).idle_tasks() == old(self).idle_tasks().push(
                IdleTask { handle: h.channel() as usize, output },
            ),
    {
        let ghost pre = *self;
        let id = self.open_channel();
        proof { Self::lemma_push_channel(pre, *self); }
        self.idle.push(IdleTask { handle: id, output });
        JoinHandle { id }
    }

    /// Submits work that is ready as soon as it runs, in the phase that
    /// `priority` names: `High` on the microtask queue, `Low` at idle time.
    pub fn spawn(&mut self, priority: Priority, output: T) -> (h: JoinHandle)
        requires
            old(self).wf(),
            old(self).channels().len() < usize::MAX,
        ensures
            final(self).wf(),
            h.channel() == old(self).channels().len(),
            final(self).channels() == old(self).channels().push(Slot::Pending),
            priority is High ==> final(self).microtasks() == old(self).microtasks().push(
                Task { handle: h.channel() as usize, work: Work { suspensions: 0, output } },
            ) && final(self).idle_tasks() == old(self).idle_tasks(),
            priority is Low ==> final(self).idle_tasks() == old(self).idle_tasks().push(
                IdleTask { handle: h.channel() as usize, output },
            ) && final(self).microtasks() == old(self).microtasks(),
    {
        match priority {
            Priority::High => self.spawn_local(Work { suspensions: 0, output }),
            Priority::Low => self.spawn_idle(output),
        }
    }

    /// Writes `value` into channel `id`.
    fn fill(&mut self, id: usize, value: T)
        requires
            id < old(self).channels().len(),
        ensures
            final(self).channels() == old(self).channels().update(
                id as int,
                after_send(old(self).channels()[id as int], value),
            ),
            final(self).microtasks() == old(self).microtasks(),
            final(self).idle_tasks() == old(self).idle_tasks(),
    {
        let mut ch = ResultChannel::new();
        self.channels.set_and_swap(id, &mut ch);
        ch.send(value);
        self.channels.set_and_swap(id, &mut ch);
        assert(self.channels() =~= old(self).channels().update(
            id as int,
            after_send(old(self).channels()[id as int], value),
        ));
    }

    /// Runs one microtask: polls the front task once. Returns false, and
    /// changes nothing, when the queue is empty.
    pub fn run_microtask(&mut self) -> (ran: bool)
        requires
            old(self).wf(),
        ensures
            final(self).wf(),
            ran == (old(self).microtasks().len() > 0),
            ran ==> Self::microtask_step(*old(self), *final(self)),
            !ran ==> final(self).channels() == old(self).channels()
                && final(self).idle_tasks() == old(self).idle_tasks()
                && final(self).microtasks() == old(self).microtasks(),
    {
        if self.microtasks.len() == 0 {
            return false;
        }
        let ghost pre = *self;
        let t = self.microtasks.remove(0);
        assert(self.microtasks() =~= pre.microtasks().drop_first());
        let Task { handle, work } = t;
        let Work { suspensions, output } = work;
        if suspensions == 0 {
            self.fill(handle, output);
        } else {
            self.microtasks.push(Task { handle, work: Work { suspensions: suspensions - 1, output } });
        }
        proof {
            let m = pre.microtasks();
            assert forall|a: int| 0 <= a < self.microtasks().len()
                implies self.channels()[self.microtasks()[a].handle as int] is Pending by {
                if a + 1 < m.len() {
                    assert(self.microtasks()[a] == m[a + 1]);
                    assert(m[0].handle != m[a + 1].handle);
                }
            }
            assert forall|a: int| 0 <= a < self.idle_tasks().len()
                implies self.channels()[self.idle_tasks()[a].handle as int] is Pending by {
                assert(m[0].handle != pre.idle_tasks()[a].handle);
            }
            assert forall|a: int, b: int| 0 <= a < b < self.microtasks().len()
                implies self.microtasks()[a].handle != self.microtasks()[b].handle by {
                assert(self.microtasks()[a] == m[a + 1]);
                if b + 1 < m.len() {
                    assert(self.microtasks()[b] == m[b + 1]);
                } else {
                    assert(self.microtasks()[b].handle == m[0].handle);
                }
            }
            assert forall|a: int, b: int| 0 <= a < self.microtasks().len() && 0 <= b < self.idle_tasks().len()
                implies self.microtasks()[a].handle != self.idle_tasks()[b].handle by {
                if a + 1 < m.len() {
                    assert(self.microtasks()[a] == m[a + 1]);
                } else {
                    assert(self.microtasks()[a].handle == m[0].handle);
                }
            }
        }
        true
    }

    /// The host reaches an idle moment: runs the oldest idle callback.
    /// Returns false, and changes nothing, when none is registered.
    pub fn run_idle(&mut self) -> (ran: bool)
        requires
            old(self).wf(),
        ensures
            final(self).wf(),
            ran == (old(self).idle_tasks().len() > 0),
            ran ==> Self::idle_step(*old(self), *final(self)),
            !ran ==> final(self).channels() == old(self).channels()
                && final(self).idle_tasks() == old(self).idle_tasks()
                && final(self).microtasks() == old(self).microtasks(),
    {
        if self.idle.len() == 0 {
            return false;
        }
        let ghost pre = *self;
        let t = self.idle.remove(0);
        assert(self.idle_tasks() =~= pre.idle_tasks().drop_first());
        let IdleTask { handle, output } = t;
        self.fill(handle, output);
        proof {
            let i = pre.idle_tasks();
            assert forall|a: int| 0 <= a < self.microtasks().len()
                implies self.channels()[self.microtasks()[a].handle as int] is Pending by {
                assert(pre.microtasks()[a].handle != i[0].handle);
            }
            assert forall|a: int| 0 <= a < self.idle_tasks().len()
                implies self.channels()[self.idle_tasks()[a].handle as int] is Pending by {
                assert(self.idle_tasks()[a] == i[a + 1]);
                assert(i[0].handle != i[a + 1].handle);
            }
            assert forall|a: int, b: int| 0 <= a < b < self.idle_tasks().len()
                implies self.idle_tasks()[a].handle != self.idle_tasks()[b].handle by {
                assert(self.idle_tasks()[a] == i[a + 1]);
                assert(self.idle_tasks()[b] == i[b + 1]);
            }
            assert forall|a: int, b: int| 0 <= a < self.microtasks().len() && 0 <= b < self.idle_tasks().len()
                implies self.microtasks()[a].handle != self.idle_tasks()[b].handle by {
                assert(self.idle_tasks()[b] == i[b + 1]);
            }
        }
        true
    }

    /// Polls a join handle: a ready result is handed out once and its channel
    /// becomes consumed; a pending or already consumed channel is reported as
    /// it is and left alone.
    pub fn poll(&mut self, h: &JoinHandle) -> (r: Slot<T>)
        requires
            old(self).wf(),
            old(self).issued(h),
        ensures
            final(self).wf(),
            r == old(self).channels()[h.channel() as int],
            final(self).channels() == old(self).channels().update(
                h.channel() as int,
                after_take(old(self).channels()[h.channel() as int]),
            ),
            final(self).microtasks() == old(self).microtasks(),
            final(self).idle_tasks() == old(self).idle_tasks(),
    {
        let mut ch = ResultChannel::new();
        self.channels.set_and_swap(h.id, &mut ch);
        let r = ch.take();
        self.channels.set_and_swap(h.id, &mut ch);
        assert(self.channels() =~= old(self).channels().update(
            h.channel() as int,
            after_take(old(self).channels()[h.channel() as int]),
        ));
        r
    }

    /// Whether `h`'s result is waiting to be read.
    pub fn is_ready(&self, h: &JoinHandle) -> (r: bool)
        requires
            self.issued(h),
        ensures
            r == (self.channels()[h.channel() as int] is Ready),
    {
        self.channels[h.id].is_ready()
    }
}

/// Spawned work never runs inside the spawning call: right after a spawn the
/// task's channel is pending, and a poll then finds nothing and changes nothing.
pub proof fn lemma_spawn_defers<T>(pre: HostLoop<T>, post: HostLoop<T>, h: JoinHandle)
    requires
        pre.wf(),
        h.channel() == pre.channels().len(),
        post.channels() == pre.channels().push(Slot::Pending),
    ensures
        post.channels()[h.channel() as int] is Pending,
        after_take(post.channels()[h.channel() as int]) == Slot::<T>::Pending,
{
}

/// A task that completes on a microtask step fills its own channel with
/// exactly its output; the first read of that channel yields the output and
/// every later read finds the channel consumed.
pub proof fn lemma_single_resolution_in_loop<T>(pre: HostLoop<T>, post: HostLoop<T>)
    requires
        pre.wf(),
        HostLoop::microtask_step(pre, post),
        pre.microtasks()[0].work.suspensions == 0,
    ensures
        ({
            let t = pre.microtasks()[0];
            let s = post.channels()[t.handle as int];
            &&& s == Slot::Ready(t.work.output)
            &&& after_take(s) == Slot::<T>::Consumed
            &&& after_take(after_take(s)) == Slot::<T>::Consumed
        }),
{
}

/// Microtask steps never run idle work: whatever the microtask queue does,
/// every channel waiting on an idle callback stays pending, so work submitted
/// at idle priority may finish after work submitted later at high priority.
pub proof fn lemma_idle_unaffected_by_microtasks<T>(pre: HostLoop<T>, post: HostLoop<T>)
    requires
        pre.wf(),
        HostLoop::microtask_step(pre, post),
    ensures
        post.idle_tasks() == pre.idle_tasks(),
        forall|a: int| 0 <= a < pre.idle_tasks().len()
            ==> post.channels()[pre.idle_tasks()[a].handle as int] is Pending,
{
    let t = pre.microtasks()[0];
    assert forall|a: int| 0 <= a < pre.idle_tasks().len()
        implies post.channels()[pre.idle_tasks()[a].handle as int] is Pending by {
        assert(t.handle != pre.idle_tasks()[a].handle);
    }
}

/// Channels are independent: a microtask step or an idle step changes at
/// most the channel of the work it ran, and no other.
pub proof fn lemma_channels_independent<T>(pre: HostLoop<T>, post: HostLoop<T>, j: int)
    requires
        pre.wf(),
        HostLoop::microtask_step(pre, post) || HostLoop::idle_step(pre, post),
        0 <= j < pre.channels().len(),
        HostLoop::microtask_step(pre, post) ==> j != pre.microtasks()[0].handle,
        HostLoop::idle_step(pre, post) ==> j != pre.idle_tasks()[0].handle,
    ensures
        post.channels()[j] == pre.channels()[j],
{
}

} // verus!
