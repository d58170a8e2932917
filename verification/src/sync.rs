//! The synchronization set: one fence per frame slot, and for each
//! presentable image the slot whose fence last guarded work on it.

use vstd::prelude::*;

verus! {

/// Number of frames that may be in flight at once.
pub const MAX_FRAMES_IN_FLIGHT: usize = 2;

/// What is known of a frame slot's fence.
#[derive(Clone, Copy, Debug, PartialEq, Eq, Structural)]
pub enum FenceState {
    /// Signaled: no work that signals it is outstanding.
    Signaled,
    /// Reset, and not yet handed to a submission.
    Unsignaled,
    /// Handed to a submission that draws into `image`; the submission has
    /// not been seen to complete.
    Pending { image: usize },
}

/// Mathematical model of a [`SyncSet`].
pub ghost struct SyncView {
    /// State of each slot's fence.
    pub fences: Seq<FenceState>,
    /// For each image, the slot whose fence was last bound to it.
    pub bindings: Seq<Option<usize>>,
}

impl SyncView {
    /// Number of frame slots.
    pub open spec fn slots(self) -> nat {
        self.fences.len()
    }

    /// Number of presentable images that are tracked.
    pub open spec fn images(self) -> nat {
        self.bindings.len()
    }

    /// Slot `slot` has work in flight that draws into `image`.
    pub open spec fn in_flight(self, slot: int, image: usize) -> bool {
        0 <= slot < self.fences.len() && self.fences[slot] == (FenceState::Pending { image })
    }

    /// Every binding names a slot, and work in flight is recorded in the
    /// binding of the image it draws into.
    pub open spec fn wf(self) -> bool {
        &&& forall|i: int|
            0 <= i < self.bindings.len() ==> (#[trigger] self.bindings[i] matches Some(s)
                ==> s < self.fences.len())
        &&& forall|s: int|
            0 <= s < self.fences.len() ==> (#[trigger] self.fences[s] matches FenceState::Pending {
                image,
            } ==> image < self.bindings.len() && self.bindings[image as int] is Some
                && self.bindings[image as int].unwrap() == s)
    }

    /// A wait on the fence of `slot` returns: the fence is signaled, or work
    /// that will signal it is in flight.
    pub open spec fn will_signal(self, slot: int) -> bool {
        0 <= slot < self.fences.len() && self.fences[slot] != FenceState::Unsignaled
    }

    /// No fence is left reset without a submission to signal it.
    pub open spec fn all_will_signal(self) -> bool {
        forall|s: int| 0 <= s < self.fences.len() ==> #[trigger] self.will_signal(s)
    }

    /// The set at creation: every fence signaled, no image bound.
    pub open spec fn fresh(slots: nat, images: nat) -> SyncView {
        SyncView {
            fences: Seq::new(slots, |s: int| FenceState::Signaled),
            bindings: Seq::new(images, |i: int| None),
        }
    }

    /// After a wait on the fence of `slot` has returned.
    pub open spec fn waited(self, slot: usize) -> SyncView {
        SyncView { fences: self.fences.update(slot as int, FenceState::Signaled), ..self }
    }

    /// The fence of `slot` may be reset: no work that signals it is in
    /// flight.
    pub open spec fn can_reset(self, slot: usize) -> bool {
        slot < self.fences.len() && !(self.fences[slot as int] is Pending)
    }

    /// After the fence of `slot` was reset.
    pub open spec fn reset(self, slot: usize) -> SyncView {
        SyncView { fences: self.fences.update(slot as int, FenceState::Unsignaled), ..self }
    }

    /// Work on `image` may be submitted with the fence of `slot`: the fence
    /// is reset, and the image is bound to the slot.
    pub open spec fn can_submit(self, slot: usize, image: usize) -> bool {
        &&& slot < self.fences.len()
        &&& image < self.bindings.len()
        &&& self.fences[slot as int] == FenceState::Unsignaled
        &&& self.bindings[image as int] == Some(slot)
    }

    /// After work on `image` was submitted with the fence of `slot`.
    pub open spec fn submitted(self, slot: usize, image: usize) -> SyncView {
        SyncView { fences: self.fences.update(slot as int, FenceState::Pending { image }), ..self }
    }

    /// The slot, other than `slot`, whose fence is bound to `image` and
    /// still has work in flight.
    pub open spec fn blocker(self, image: usize, slot: usize) -> Option<usize> {
        match self.bindings[image as int] {
            Some(owner) => if owner != slot && owner < self.fences.len()
                && self.fences[owner as int] is Pending {
                Some(owner)
            } else {
                None
            },
            None => None,
        }
    }

    /// After `image` was bound to the fence of `slot`.
    pub open spec fn bound(self, image: usize, slot: usize) -> SyncView {
        SyncView { bindings: self.bindings.update(image as int, Some(slot)), ..self }
    }

    /// After the device was seen idle and a generation of `images` images
    /// took the place of the old one: work in flight has completed, and no
    /// image is bound.
    pub open spec fn retired(self, images: nat) -> SyncView {
        SyncView {
            fences: Seq::new(
                self.fences.len(),
                |s: int|
                    if self.fences[s] is Pending {
                        FenceState::Signaled
                    } else {
                        self.fences[s]
                    },
            ),
            bindings: Seq::new(images, |i: int| None),
        }
    }
}

impl SyncView {
    /// A completed wait keeps the set well formed, and leaves no fence
    /// without a signal to come.
    pub proof fn lemma_waited(self, slot: usize)
        requires
            self.wf(),
            slot < self.slots(),
        ensures
            self.waited(slot).wf(),
            self.waited(slot).fences[slot as int] == FenceState::Signaled,
            self.all_will_signal() ==> self.waited(slot).all_will_signal(),
    {
        let after = self.waited(slot);
        assert forall|s: int| 0 <= s < after.fences.len() implies (
        #[trigger] after.fences[s] matches FenceState::Pending { image } ==> image
            < after.bindings.len() && after.bindings[image as int] is Some
            && after.bindings[image as int].unwrap() == s) by {
            if s != slot {
                assert(after.fences[s] == self.fences[s]);
            }
        }
        if self.all_will_signal() {
            assert forall|s: int| 0 <= s < after.fences.len() implies #[trigger] after.will_signal(
                s,
            ) by {
                if s != slot {
                    assert(self.will_signal(s));
                }
            }
        }
    }

    /// Binding an image that no other slot still works on keeps the set
    /// well formed.
    pub proof fn lemma_bound(self, image: usize, slot: usize)
        requires
            self.wf(),
            image < self.images(),
            slot < self.slots(),
            self.blocker(image, slot) is None,
        ensures
            self.bound(image, slot).wf(),
            self.bound(image, slot).fences == self.fences,
            self.bound(image, slot).bindings[image as int] == Some(slot),
            self.all_will_signal() ==> self.bound(image, slot).all_will_signal(),
    {
        let after = self.bound(image, slot);
        assert forall|s: int| 0 <= s < after.fences.len() implies (
        #[trigger] after.fences[s] matches FenceState::Pending { image: im } ==> im
            < after.bindings.len() && after.bindings[im as int] is Some
            && after.bindings[im as int].unwrap() == s) by {
            assert(after.fences[s] == self.fences[s]);
        }
        assert forall|i: int| 0 <= i < after.bindings.len() implies (
        #[trigger] after.bindings[i] matches Some(s) ==> s < after.fences.len()) by {
            if i != image {
                assert(after.bindings[i] == self.bindings[i]);
            }
        }
        if self.all_will_signal() {
            assert forall|s: int| 0 <= s < after.fences.len() implies #[trigger] after.will_signal(
                s,
            ) by {
                assert(self.will_signal(s));
            }
        }
    }

    /// Resetting a signaled fence and submitting with it, for an image
    /// bound to its slot, keeps the set well formed: the fence is signaled
    /// once for each reset.
    pub proof fn lemma_reset_submitted(self, slot: usize, image: usize)
        requires
            self.wf(),
            slot < self.slots(),
            image < self.images(),
            self.fences[slot as int] == FenceState::Signaled,
            self.bindings[image as int] == Some(slot),
        ensures
            self.can_reset(slot),
            self.reset(slot).can_submit(slot, image),
            self.reset(slot).submitted(slot, image).wf(),
            self.reset(slot).submitted(slot, image).fences[slot as int] == (FenceState::Pending {
                image,
            }),
            self.all_will_signal() ==> self.reset(slot).submitted(slot, image).all_will_signal(),
    {
        let after = self.reset(slot).submitted(slot, image);
        assert forall|s: int| 0 <= s < after.fences.len() implies (
        #[trigger] after.fences[s] matches FenceState::Pending { image: im } ==> im
            < after.bindings.len() && after.bindings[im as int] is Some
            && after.bindings[im as int].unwrap() == s) by {
            if s != slot {
                assert(after.fences[s] == self.fences[s]);
            }
        }
        assert forall|i: int| 0 <= i < after.bindings.len() implies (
        #[trigger] after.bindings[i] matches Some(s) ==> s < after.fences.len()) by {
            assert(after.bindings[i] == self.bindings[i]);
        }
        if self.all_will_signal() {
            assert forall|s: int| 0 <= s < after.fences.len() implies #[trigger] after.will_signal(
                s,
            ) by {
                if s != slot {
                    assert(self.will_signal(s));
                }
            }
        }
    }

    /// After a generation is retired the set is well formed, tracks the new
    /// number of images, and binds none of them.
    pub proof fn lemma_retired(self, images: nat)
        requires
            self.wf(),
        ensures
            self.retired(images).wf(),
            self.retired(images).slots() == self.slots(),
            self.retired(images).images() == images,
            forall|i: int| 0 <= i < images ==> self.retired(images).bindings[i] is None,
            forall|s: int| 0 <= s < self.slots() ==> !(self.retired(images).fences[s] is Pending),
            self.all_will_signal() ==> self.retired(images).all_will_signal(),
    {
        let after = self.retired(images);
        if self.all_will_signal() {
            assert forall|s: int| 0 <= s < after.fences.len() implies #[trigger] after.will_signal(
                s,
            ) by {
                assert(self.will_signal(s));
            }
        }
    }

    /// At most one slot has work in flight on any image.
    pub proof fn lemma_single_owner(self, image: usize, first: int, second: int)
        requires
            self.wf(),
            self.in_flight(first, image),
            self.in_flight(second, image),
        ensures
            first == second,
    {
        assert(self.fences[first] is Pending);
        assert(self.fences[second] is Pending);
    }
}

/// Fences of the frame slots and the image bindings.
#[derive(Debug)]
pub struct SyncSet {
    fences: Vec<FenceState>,
    images_in_flight: Vec<Option<usize>>,
}

impl View for SyncSet {
    type V = SyncView;

    closed spec fn view(&self) -> SyncView {
        SyncView { fences: self.fences@, bindings: self.images_in_flight@ }
    }
}

/// A vector of `images` unbound entries.
fn unbound(images: usize) -> (v: Vec<Option<usize>>)
    ensures
        v@ == Seq::new(images as nat, |i: int| None::<usize>),
{
    let mut v: Vec<Option<usize>> = Vec::new();
    let mut i: usize = 0;
    while i < images
        invariant
            i <= images,
            v@.len() == i,
            forall|j: int| 0 <= j < i ==> v@[j] == None::<usize>,
        decreases images - i,
    {
        v.push(None);
        i += 1;
    }
    assert(v@ =~= Seq::new(images as nat, |i: int| None::<usize>));
    v
}

impl SyncSet {
    /// Creates the set for `slots` frame slots and `images` images. Fences
    /// start signaled, so that the first frame of each slot does not block.
    pub fn new(slots: usize, images: usize) -> (r: SyncSet)
        ensures
            r@ == SyncView::fresh(slots as nat, images as nat),
            r@.wf(),
            r@.all_will_signal(),
    {
        let mut fences: Vec<FenceState> = Vec::new();
        let mut s: usize = 0;
        while s < slots
            invariant
                s <= slots,
                fences@.len() == s,
                forall|j: int| 0 <= j < s ==> fences@[j] == FenceState::Signaled,
            decreases slots - s,
        {
            fences.push(FenceState::Signaled);
            s += 1;
        }
        let r = SyncSet { fences, images_in_flight: unbound(images) };
        assert(r@.fences =~= SyncView::fresh(slots as nat, images as nat).fences);
        r
    }

    /// Number of frame slots.
    pub fn slots(&self) -> (n: usize)
        ensures
            n == self@.slots(),
    {
        self.fences.len()
    }

    /// Number of images that are tracked.
    pub fn images(&self) -> (n: usize)
        ensures
            n == self@.images(),
    {
        self.images_in_flight.len()
    }

    /// State of the fence of `slot`.
    pub fn fence(&self, slot: usize) -> (r: FenceState)
        requires
            slot < self@.slots(),
        ensures
            r == self@.fences[slot as int],
    {
        self.fences[slot]
    }

    /// The slot whose fence was last bound to `image`.
    pub fn in_use_fence(&self, image: usize) -> (r: Option<usize>)
        requires
            image < self@.images(),
        ensures
            r == self@.bindings[image as int],
    {
        self.images_in_flight[image]
    }

    /// Records that a wait on the fence of `slot` has returned. Returns
    /// false, and records nothing, when no such wait can return: the fence
    /// was reset and nothing was submitted with it.
    pub fn wait(&mut self, slot: usize) -> (ok: bool)
        requires
            slot < old(self)@.slots(),
        ensures
            ok == old(self)@.will_signal(slot as int),
            ok ==> final(self)@ == old(self)@.waited(slot),
            !ok ==> final(self)@ == old(self)@,
            old(self)@.wf() ==> final(self)@.wf(),
    {
        match self.fences[slot] {
            FenceState::Unsignaled => false,
            _ => {
                self.fences.set(slot, FenceState::Signaled);
                true
            },
        }
    }

    /// Records that the fence of `slot` was reset. Returns false, and
    /// records nothing, while work that signals the fence is in flight.
    pub fn reset(&mut self, slot: usize) -> (ok: bool)
        requires
            slot < old(self)@.slots(),
        ensures
            ok == old(self)@.can_reset(slot),
            ok ==> final(self)@ == old(self)@.reset(slot),
            !ok ==> final(self)@ == old(self)@,
            old(self)@.wf() ==> final(self)@.wf(),
    {
        match self.fences[slot] {
            FenceState::Pending { .. } => false,
            _ => {
                self.fences.set(slot, FenceState::Unsignaled);
                true
            },
        }
    }

    /// Waits on the fence of `slot`, then resets it for reuse. Returns
    /// false, and records nothing, when the wait cannot return.
    pub fn wait_and_reset(&mut self, slot: usize) -> (ok: bool)
        requires
            slot < old(self)@.slots(),
        ensures
            ok == old(self)@.will_signal(slot as int),
            ok ==> final(self)@ == old(self)@.waited(slot).reset(slot),
            ok ==> final(self)@.fences[slot as int] == FenceState::Unsignaled,
            !ok ==> final(self)@ == old(self)@,
            old(self)@.wf() ==> final(self)@.wf(),
    {
        if self.wait(slot) {
            let done = self.reset(slot);
            assert(done);
            true
        } else {
            false
        }
    }

    /// Records that work on `image` was submitted with the fence of `slot`.
    /// Returns false, and records nothing, unless the fence is reset and
    /// the image is bound to the slot: a fence is never handed to a second
    /// submission without a reset in between.
    pub fn submit(&mut self, slot: usize, image: usize) -> (ok: bool)
        requires
            slot < old(self)@.slots(),
            image < old(self)@.images(),
        ensures
            ok == old(self)@.can_submit(slot, image),
            ok ==> final(self)@ == old(self)@.submitted(slot, image),
            !ok ==> final(self)@ == old(self)@,
            old(self)@.wf() ==> final(self)@.wf(),
    {
        let reset = match self.fences[slot] {
            FenceState::Unsignaled => true,
            _ => false,
        };
        let bound = match self.images_in_flight[image] {
            Some(owner) => owner == slot,
            None => false,
        };
        if reset && bound {
            self.fences.set(slot, FenceState::Pending { image });
            true
        } else {
            false
        }
    }

    /// The slot, other than `slot`, whose fence is bound to `image` and
    /// still has work in flight.
    pub fn blocker(&self, image: usize, slot: usize) -> (r: Option<usize>)
        requires
            image < self@.images(),
        ensures
            r == self@.blocker(image, slot),
            self@.wf() ==> (r matches Some(owner) ==> owner < self@.slots() && owner != slot),
    {
        match self.images_in_flight[image] {
            Some(owner) => {
                if owner != slot && owner < self.fences.len() {
                    match self.fences[owner] {
                        FenceState::Pending { .. } => Some(owner),
                        _ => None,
                    }
                } else {
                    None
                }
            },
            None => None,
        }
    }

    /// Binds `image` to the fence of `slot`. Where the image is bound to
    /// another slot whose work is still in flight, nothing is recorded and
    /// that slot is returned: its fence has to be waited on first.
    pub fn bind(&mut self, image: usize, slot: usize) -> (r: Option<usize>)
        requires
            image < old(self)@.images(),
            slot < old(self)@.slots(),
        ensures
            r == old(self)@.blocker(image, slot),
            r is None ==> final(self)@ == old(self)@.bound(image, slot),
            r is Some ==> final(self)@ == old(self)@,
            old(self)@.wf() ==> final(self)@.wf(),
    {
        let blocker = self.blocker(image, slot);
        if blocker.is_none() {
            self.images_in_flight.set(image, Some(slot));
            proof {
                if old(self)@.wf() {
                    old(self)@.lemma_bound(image, slot);
                }
            }
        }
        blocker
    }

    /// Records that the device was seen idle and that a generation of
    /// `images` images took the place of the old one: every fence with work
    /// in flight is signaled, and the bindings are `images` entries, none
    /// bound.
    pub fn retire(&mut self, images: usize)
        ensures
            final(self)@ == old(self)@.retired(images as nat),
            final(self)@.images() == images,
            forall|i: int| 0 <= i < images ==> final(self)@.bindings[i] is None,
            old(self)@.wf() ==> final(self)@.wf(),
    {
        let mut s: usize = 0;
        while s < self.fences.len()
            invariant
                s <= self.fences@.len(),
                self.fences@.len() == old(self).fences@.len(),
                self.images_in_flight@ == old(self).images_in_flight@,
                forall|j: int|
                    0 <= j < s ==> self.fences@[j] == old(self)@.retired(images as nat).fences[j],
                forall|j: int| s <= j < self.fences@.len() ==> self.fences@[j] == old(self).fences@[j],
            decreases self.fences@.len() - s,
        {
            match self.fences[s] {
                FenceState::Pending { .. } => {
                    self.fences.set(s, FenceState::Signaled);
                },
                _ => {},
            }
            s += 1;
        }
        self.images_in_flight = unbound(images);
        assert(self@.fences =~= old(self)@.retired(images as nat).fences);
    }
}

} // verus!
