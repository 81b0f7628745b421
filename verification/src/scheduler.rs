//! The frame scheduler: the state machine that drives one frame through
//! wait, acquire, cross-wait, submit, present and advance, and that routes
//! surface staleness into swapchain recreation.
//!
//! The application performs the graphics-API calls; the scheduler owns every
//! decision. Frame slots rotate modulo the slot count; the images-in-flight
//! table remembers, per swapchain image, the frame slot whose fence last
//! took the image, so that the processor never races ahead of the device
//! when fewer slots than images exist.

use vstd::prelude::*;

verus! {

/// Where the scheduler stands in the per-frame protocol.
#[derive(Clone, Copy, Debug, PartialEq, Eq, Structural)]
pub enum Phase {
    /// Ready to begin a frame: wait on the current slot's fence, then
    /// acquire an image.
    Idle,
    /// An image is acquired and recorded; ready to submit and present.
    Acquired { image_index: usize },
    /// Staleness was observed: the swapchain must be rebuilt before the
    /// next frame.
    NeedsRecreate,
    /// A fatal device error was observed: the loop must stop.
    Halted,
}

/// Outcome of an image-acquire call, as the application observed it.
#[derive(Clone, Copy, Debug, PartialEq, Eq, Structural)]
pub enum AcquireResult {
    /// An image was acquired.
    Success { image_index: usize },
    /// The surface is out of date: recreate, then retry the frame.
    OutOfDate,
    /// Any other device error: fatal.
    DeviceError,
}

/// Outcome of a present call, as the application observed it.
#[derive(Clone, Copy, Debug, PartialEq, Eq, Structural)]
pub enum PresentResult {
    /// The image was queued for presentation.
    Success,
    /// The image was presented but the swapchain no longer matches the
    /// surface exactly.
    Suboptimal,
    /// The surface is out of date; the present still happened.
    OutOfDate,
    /// Any other device error: fatal.
    DeviceError,
}

/// What the application must do next after reporting an acquire outcome.
#[derive(Clone, Copy, Debug, PartialEq, Eq)]
pub enum FrameAction {
    /// Continue the frame: if `prior_user` names a slot, first wait on that
    /// slot's fence (a different frame still uses the acquired image), then
    /// submit and present.
    Proceed { prior_user: Option<usize> },
    /// Abandon the frame and rebuild the swapchain.
    Recreate,
    /// Stop the render loop.
    Halt,
}

/// What the application must do next after reporting a present outcome.
#[derive(Clone, Copy, Debug, PartialEq, Eq, Structural)]
pub enum PresentAction {
    /// The frame is complete; begin the next one.
    Continue,
    /// Rebuild the swapchain, then begin the next frame.
    Recreate,
    /// Stop the render loop.
    Halt,
}

/// One successful acquire: which slot took which image.
pub struct FrameUse {
    pub slot: usize,
    pub image: usize,
}

/// The scheduler's abstract state.
#[verifier::ext_equal]
pub struct SchedulerView {
    /// Number of frame slots (the count of in-flight frames).
    pub num_slots: usize,
    /// The current frame slot.
    pub slot: usize,
    /// Per swapchain image: the slot whose fence last took the image, or
    /// `None` if no slot has used it since the last (re)build.
    pub images_in_flight: Seq<Option<usize>>,
    /// Whether the windowing side has requested a resize.
    pub resize_requested: bool,
    /// Where the per-frame protocol stands.
    pub phase: Phase,
    /// Every successful acquire since the last (re)build, oldest first.
    pub history: Seq<FrameUse>,
}

/// The slot of the most recent use of `image` in `h`, or `None` when no
/// use of `image` is recorded.
pub open spec fn last_user(h: Seq<FrameUse>, image: int) -> Option<usize>
    decreases h.len(),
{
    if h.len() == 0 {
        None
    } else if h.last().image == image {
        Some(h.last().slot)
    } else {
        last_user(h.drop_last(), image)
    }
}

/// `k` indexes a use of `image` in `h`.
pub open spec fn used_at(h: Seq<FrameUse>, image: int, k: int) -> bool {
    0 <= k < h.len() && h[k].image == image
}

/// `k` indexes the latest use of `image` in `h`.
pub open spec fn latest_use_is(h: Seq<FrameUse>, image: int, k: int) -> bool {
    &&& used_at(h, image, k)
    &&& forall|k2: int| k < k2 < h.len() ==> (#[trigger] h[k2]).image != image
}

impl SchedulerView {
    /// How many swapchain images the scheduler currently tracks.
    pub open spec fn image_count(self) -> int {
        self.images_in_flight.len() as int
    }

    /// Well-formedness: the slot and every recorded use are in range, and
    /// the images-in-flight table holds, per image, exactly the slot of its
    /// most recent use.
    pub open spec fn wf(self) -> bool {
        &&& 1 <= self.num_slots
        &&& self.slot < self.num_slots
        &&& (match self.phase {
            Phase::Acquired { image_index } => image_index < self.images_in_flight.len(),
            _ => true,
        })
        &&& (forall|k: int|
            0 <= k < self.history.len() ==> (#[trigger] self.history[k]).slot < self.num_slots
                && self.history[k].image < self.images_in_flight.len())
        &&& (forall|j: int|
            0 <= j < self.images_in_flight.len() ==> #[trigger] self.images_in_flight[j]
                == last_user(self.history, j))
    }

    /// The state after a successful acquire of `image`: the acquire is
    /// recorded, the table remembers the current slot as the image's user,
    /// and the frame proceeds.
    pub open spec fn after_acquire_success(self, image: usize) -> SchedulerView {
        SchedulerView {
            images_in_flight: self.images_in_flight.update(image as int, Some(self.slot)),
            phase: Phase::Acquired { image_index: image },
            history: self.history.push(FrameUse { slot: self.slot, image }),
            ..self
        }
    }

    /// The state after acquire reported staleness: nothing else changes;
    /// in particular the slot stands still, so no frame is skipped.
    pub open spec fn after_acquire_out_of_date(self) -> SchedulerView {
        SchedulerView { phase: Phase::NeedsRecreate, ..self }
    }

    /// The state after a fatal device error.
    pub open spec fn halted(self) -> SchedulerView {
        SchedulerView { phase: Phase::Halted, ..self }
    }

    /// The slot the next frame uses.
    pub open spec fn next_slot(self) -> int {
        (self.slot + 1) % (self.num_slots as int)
    }

    /// The state after the present call came back: the slot advances, and
    /// staleness or a pending resize request routes into recreation.
    pub open spec fn after_present(self, stale: bool) -> SchedulerView {
        SchedulerView {
            slot: self.next_slot() as usize,
            phase: if stale || self.resize_requested {
                Phase::NeedsRecreate
            } else {
                Phase::Idle
            },
            ..self
        }
    }

    /// The state after the swapchain was rebuilt with `image_count` images:
    /// the table is resized and fully cleared, the resize request is
    /// consumed, and the same slot resumes the protocol.
    pub open spec fn after_recreate(self, image_count: usize) -> SchedulerView {
        SchedulerView {
            images_in_flight: Seq::new(image_count as nat, |i: int| None),
            resize_requested: false,
            phase: Phase::Idle,
            history: Seq::empty(),
            ..self
        }
    }

    /// The state after the windowing side requested a resize.
    pub open spec fn with_resize_requested(self) -> SchedulerView {
        SchedulerView { resize_requested: true, ..self }
    }
}

/// The frame scheduler's concrete state.
#[derive(Clone)]
pub struct Scheduler {
    num_slots: usize,
    slot: usize,
    images_in_flight: Vec<Option<usize>>,
    resize_requested: bool,
    phase: Phase,
    history: Ghost<Seq<FrameUse>>,
}

impl View for Scheduler {
    type V = SchedulerView;

    closed spec fn view(&self) -> SchedulerView {
        SchedulerView {
            num_slots: self.num_slots,
            slot: self.slot,
            images_in_flight: self.images_in_flight@,
            resize_requested: self.resize_requested,
            phase: self.phase,
            history: self.history@,
        }
    }
}

/// A table of `n` entries, all `None`.
fn none_table(n: usize) -> (r: Vec<Option<usize>>)
    ensures
        r@ == Seq::new(n as nat, |i: int| None::<usize>),
{
    let mut r: Vec<Option<usize>> = Vec::new();
    let mut i: usize = 0;
    while i < n
        invariant
            0 <= i <= n,
            r@.len() == i,
            forall|j: int| 0 <= j < i ==> r@[j] == None::<usize>,
        decreases n - i,
    {
        r.push(None);
        i += 1;
    }
    assert(r@ =~= Seq::new(n as nat, |i: int| None::<usize>));
    r
}

impl Scheduler {
    /// A fresh scheduler: slot `0`, every image unused, no resize pending,
    /// ready for the first frame.
    pub fn new(num_slots: usize, image_count: usize) -> (s: Scheduler)
        requires
            1 <= num_slots,
        ensures
            s@.wf(),
            s@.num_slots == num_slots,
            s@.slot == 0,
            s@.images_in_flight == Seq::new(image_count as nat, |i: int| None::<usize>),
            s@.resize_requested == false,
            s@.phase == Phase::Idle,
            s@.history == Seq::<FrameUse>::empty(),
    {
        let s = Scheduler {
            num_slots,
            slot: 0,
            images_in_flight: none_table(image_count),
            resize_requested: false,
            phase: Phase::Idle,
            history: Ghost(Seq::empty()),
        };
        s
    }

    /// The number of frame slots.
    pub fn num_slots(&self) -> (r: usize)
        ensures
            r == self@.num_slots,
    {
        self.num_slots
    }

    /// The current frame slot: the slot whose fence the application waits
    /// on and whose semaphores the frame's submit and present use.
    pub fn current_slot(&self) -> (r: usize)
        ensures
            r == self@.slot,
    {
        self.slot
    }

    /// How many swapchain images the scheduler tracks.
    pub fn image_count(&self) -> (r: usize)
        ensures
            r == self@.image_count(),
    {
        self.images_in_flight.len()
    }

    /// The slot whose fence last took `image`, or `None`.
    pub fn image_fence_slot(&self, image: usize) -> (r: Option<usize>)
        requires
            image < self@.image_count(),
        ensures
            r == self@.images_in_flight[image as int],
    {
        self.images_in_flight[image]
    }

    /// Whether a resize request is pending.
    pub fn is_resize_requested(&self) -> (r: bool)
        ensures
            r == self@.resize_requested,
    {
        self.resize_requested
    }

    /// Where the per-frame protocol stands.
    pub fn phase(&self) -> (r: Phase)
        ensures
            r == self@.phase,
    {
        self.phase
    }

    /// Notes the windowing side's resize request; the next completed
    /// present routes into recreation even on a clean success.
    pub fn request_resize(&mut self)
        ensures
            final(self)@ == old(self)@.with_resize_requested(),
            old(self)@.wf() ==> final(self)@.wf(),
    {
        self.resize_requested = true;
    }

    /// Consumes the outcome of the acquire call for the current frame.
    ///
    /// On success the acquired image's previous user (if any) is handed
    /// back for the cross-wait, and the table records the current slot as
    /// the image's user. On staleness nothing is recorded and the slot
    /// stands still, so the same slot retries after recreation. Any other
    /// error halts the protocol.
    pub fn on_acquire(&mut self, result: AcquireResult) -> (action: FrameAction)
        requires
            old(self)@.wf(),
            old(self)@.phase == Phase::Idle,
            (match result {
                AcquireResult::Success { image_index } => image_index < old(self)@.image_count(),
                _ => true,
            }),
        ensures
            final(self)@.wf(),
            final(self)@.slot == old(self)@.slot,
            final(self)@.num_slots == old(self)@.num_slots,
            match result {
                AcquireResult::Success { image_index } => {
                    &&& final(self)@ == old(self)@.after_acquire_success(image_index)
                    &&& action == (FrameAction::Proceed {
                        prior_user: old(self)@.images_in_flight[image_index as int],
                    })
                    &&& (match action {
                        FrameAction::Proceed { prior_user: Some(s) } => s < old(self)@.num_slots,
                        _ => true,
                    })
                },
                AcquireResult::OutOfDate => final(self)@ == old(self)@.after_acquire_out_of_date()
                    && action == FrameAction::Recreate,
                AcquireResult::DeviceError => final(self)@ == old(self)@.halted()
                    && action == FrameAction::Halt,
            },
    {
        match result {
            AcquireResult::Success { image_index } => {
                let prior = self.images_in_flight[image_index];
                let ghost u = FrameUse { slot: self.slot, image: image_index };
                self.images_in_flight.set(image_index, Some(self.slot));
                self.phase = Phase::Acquired { image_index };
                proof {
                    self.history@ = self.history@.push(u);
                }
                proof {
                    let v0 = old(self)@;
                    let v1 = self@;
                    assert(v1 =~= v0.after_acquire_success(image_index));
                    assert forall|j: int|
                        0 <= j < v1.images_in_flight.len() implies #[trigger] v1.images_in_flight[j]
                        == last_user(v1.history, j) by {
                        lemma_last_user_push(v0.history, u, j);
                        if j != image_index as int {
                            assert(v0.images_in_flight[j] == last_user(v0.history, j));
                        }
                    }
                    assert(v1.wf());
                    lemma_last_user_characterization(v0.history, image_index as int);
                }
                FrameAction::Proceed { prior_user: prior }
            },
            AcquireResult::OutOfDate => {
                self.phase = Phase::NeedsRecreate;
                proof {
                    assert(self@ =~= old(self)@.after_acquire_out_of_date());
                }
                FrameAction::Recreate
            },
            AcquireResult::DeviceError => {
                self.phase = Phase::Halted;
                proof {
                    assert(self@ =~= old(self)@.halted());
                }
                FrameAction::Halt
            },
        }
    }

    /// Consumes the outcome of the present call for the current frame.
    ///
    /// Except on a fatal error the slot advances to `(slot + 1)` modulo the
    /// slot count, whatever image the frame used. Staleness or a pending
    /// resize request routes into recreation; the present itself already
    /// happened.
    pub fn on_present(&mut self, result: PresentResult) -> (action: PresentAction)
        requires
            old(self)@.wf(),
            old(self)@.phase is Acquired,
        ensures
            final(self)@.wf(),
            final(self)@.num_slots == old(self)@.num_slots,
            !(result is DeviceError) ==> final(self)@.slot == (old(self)@.slot + 1) % (
            old(self)@.num_slots as int),
            match result {
                PresentResult::Success => final(self)@ == old(self)@.after_present(false)
                    && action == (if old(self)@.resize_requested {
                    PresentAction::Recreate
                } else {
                    PresentAction::Continue
                }),
                PresentResult::Suboptimal => final(self)@ == old(self)@.after_present(true)
                    && action == PresentAction::Recreate,
                PresentResult::OutOfDate => final(self)@ == old(self)@.after_present(true)
                    && action == PresentAction::Recreate,
                PresentResult::DeviceError => final(self)@ == old(self)@.halted()
                    && action == PresentAction::Halt,
            },
    {
        match result {
            PresentResult::DeviceError => {
                self.phase = Phase::Halted;
                proof {
                    assert(self@ =~= old(self)@.halted());
                }
                PresentAction::Halt
            },
            _ => {
                let stale = matches!(result, PresentResult::Suboptimal | PresentResult::OutOfDate);
                assert(self.slot < self.num_slots);
                self.slot = (self.slot + 1) % self.num_slots;
                let recreate = stale || self.resize_requested;
                self.phase = if recreate {
                    Phase::NeedsRecreate
                } else {
                    Phase::Idle
                };
                proof {
                    assert(self@ =~= old(self)@.after_present(stale));
                }
                if recreate {
                    PresentAction::Recreate
                } else {
                    PresentAction::Continue
                }
            },
        }
    }

    /// Records that the swapchain was rebuilt with `image_count` images:
    /// the images-in-flight table is resized to match and fully cleared,
    /// the resize request is consumed, and the same slot that triggered
    /// recreation resumes the protocol.
    pub fn complete_recreate(&mut self, image_count: usize)
        requires
            old(self)@.wf(),
            old(self)@.phase == Phase::NeedsRecreate,
        ensures
            final(self)@.wf(),
            final(self)@ == old(self)@.after_recreate(image_count),
            final(self)@.slot == old(self)@.slot,
    {
        self.images_in_flight = none_table(image_count);
        self.resize_requested = false;
        self.phase = Phase::Idle;
        proof {
            self.history@ = Seq::empty();
            assert(self@ =~= old(self)@.after_recreate(image_count));
        }
    }
}

/// Pushing one use changes the latest user of its image alone.
proof fn lemma_last_user_push(h: Seq<FrameUse>, u: FrameUse, image: int)
    ensures
        u.image == image ==> last_user(h.push(u), image) == Some(u.slot),
        u.image != image ==> last_user(h.push(u), image) == last_user(h, image),
{
    assert(h.push(u).last() == u);
    assert(h.push(u).drop_last() =~= h);
}

/// What `last_user` returns is exactly the latest recorded use: when it
/// names a slot, some latest use of the image carries that slot; when it
/// names none, the image was never used.
pub proof fn lemma_last_user_characterization(h: Seq<FrameUse>, image: int)
    ensures
        match last_user(h, image) {
            Some(s) => exists|k: int| latest_use_is(h, image, k) && (#[trigger] h[k]).slot == s,
            None => forall|k: int| 0 <= k < h.len() ==> (#[trigger] h[k]).image != image,
        },
    decreases h.len(),
{
    if h.len() == 0 {
    } else if h.last().image == image {
        let k = h.len() - 1;
        assert(latest_use_is(h, image, k) && h[k].slot == h.last().slot);
    } else {
        let h2 = h.drop_last();
        lemma_last_user_characterization(h2, image);
        assert(last_user(h, image) == last_user(h2, image));
        match last_user(h2, image) {
            Some(s) => {
                let k = choose|k: int| latest_use_is(h2, image, k) && (#[trigger] h2[k]).slot == s;
                assert(h[k] == h2[k]);
                assert forall|k2: int| k < k2 < h.len() implies (#[trigger] h[k2]).image != image by {
                    if k2 < h.len() - 1 {
                        assert(h[k2] == h2[k2]);
                    } else {
                        assert(h[k2] == h.last());
                    }
                }
                assert(latest_use_is(h, image, k) && h[k].slot == s);
            },
            None => {
                assert forall|k: int| 0 <= k < h.len() implies (#[trigger] h[k]).image != image by {
                    if k < h.len() - 1 {
                        assert(h[k] == h2[k]);
                    } else {
                        assert(h[k] == h.last());
                    }
                }
            },
        }
    }
}

/// Law: in a well-formed state, the images-in-flight table maps each image
/// either to no fence or to the slot of the most recent frame that used
/// that image — never to a stale slot.
pub proof fn lemma_table_entry_is_latest_user(v: SchedulerView, image: int)
    requires
        v.wf(),
        0 <= image < v.images_in_flight.len(),
    ensures
        v.images_in_flight[image] == last_user(v.history, image),
        match v.images_in_flight[image] {
            Some(s) => exists|k: int| latest_use_is(v.history, image, k) && (#[trigger] v.history[k]).slot
                == s,
            None => forall|k: int| 0 <= k < v.history.len() ==> (#[trigger] v.history[k]).image != image,
        },
{
    lemma_last_user_characterization(v.history, image);
}

/// Law: the slot advance is `(slot + 1)` modulo the slot count, a function
/// of the slot and the slot count alone — which image a frame acquired
/// never enters it.
pub proof fn lemma_advance_independent_of_image(v1: SchedulerView, v2: SchedulerView)
    requires
        v1.slot == v2.slot,
        v1.num_slots == v2.num_slots,
    ensures
        v1.next_slot() == v2.next_slot(),
        v1.next_slot() == (v1.slot + 1) % (v1.num_slots as int),
{
}

/// Law: recreation is idempotent on the scheduler's state: a second
/// recreation with an unchanged image count leaves everything exactly as
/// the first left it — same table size, same cleared entries, same slot.
pub proof fn lemma_recreate_idempotent(v: SchedulerView, image_count: usize)
    ensures
        v.after_recreate(image_count).after_recreate(image_count) == v.after_recreate(image_count),
{
    assert(v.after_recreate(image_count).after_recreate(image_count) =~= v.after_recreate(
        image_count,
    ));
}

} // verus!
