use vstd::prelude::*;
use crate::eye::{
    advance_counter, counter_after, eye_for_counter, eye_of, lemma_counter_step, lemma_eye_alternates, lemma_eye_flips, Eye,
};
use crate::layer::{layer, layer_spec, LayerEyeFov};
use crate::pose::{PoseSnapshot, Quat, Vector3, CAMERA_DOWN_OFFSET};
use crate::swap_chain::{committed, ensured, reallocated, SwapChainManager, SwapChainsView, ViewportSize};
use crate::transfer::{check_error, region_for, CopyRegion, FrameError, GlStep};

verus! {

/// Bit of the controller's button mask for the Enter (start) button, which
/// asks for the tracking origin to be reset.
pub const RECENTER_BUTTON: u32 = 0x0010_0000;

/// What a begin-frame call has to do before the host renders.
#[derive(Clone, Copy, Debug, PartialEq, Eq, Structural)]
pub struct BeginFrame {
    /// The eye rendered in this pass.
    pub eye: Eye,
    /// Reset the tracking origin.
    pub recenter: bool,
    /// Query the runtime for a fresh pose snapshot and store it.
    pub sample_poses: bool,
}

/// How the camera frame's base transform is kept equal for both eyes.
#[derive(Clone, Copy, Debug, PartialEq, Eq, Structural)]
pub enum BaseTransform {
    /// Copy the frame's matrix aside (left eye).
    SaveFromFrame,
    /// Copy the matrix saved by the left eye back into the frame (right eye).
    RestoreToFrame,
}

/// The transform applied to the host's camera frame for one eye pass, in
/// order: base transform, camera-local offset, tracked position, rotation.
#[derive(Clone, Copy, Debug, PartialEq, Eq, Structural)]
pub struct CameraMotion {
    pub eye: Eye,
    pub base: BaseTransform,
    pub offset: Vector3,
    pub position: Vector3,
    pub orientation: Quat,
}

/// The pipeline's state, seen as plain values.
pub ghost struct PipelineView {
    /// The frame counter; its low bit selects the eye.
    pub counter: int,
    /// How many end-frame calls have completed.
    pub completed: nat,
    /// The pose snapshot of the current stereo pair.
    pub poses: PoseSnapshot,
    /// How many snapshots have been stored.
    pub samples: nat,
    /// The size that pixels are copied at.
    pub viewport: Option<ViewportSize>,
    pub chains: SwapChainsView,
    /// Whether each eye has committed a frame in the current stereo pair.
    pub pair_left: bool,
    pub pair_right: bool,
    /// A fatal error was seen.
    pub failed: bool,
    /// How many frames went to the compositor.
    pub submissions: nat,
}

/// The invariant of the pipeline, over its view.
pub open spec fn view_wf(v: PipelineView) -> bool {
    &&& v.counter == counter_after(v.completed)
    &&& (v.chains.size is Some ==> v.viewport is Some)
    &&& (eye_of(v.counter) == Eye::Left ==> !v.pair_right)
}

/// Whether a begin-frame call after `completed` end-frame calls samples
/// poses: only at the start of a stereo pair.
pub open spec fn samples_on_begin(completed: nat) -> bool {
    eye_of(counter_after(completed)) == Eye::Left
}

/// Whether the end-frame call from state `v` submits a frame: only for the
/// right eye, once both eyes committed into the current chains, and never
/// after a fatal error.
pub open spec fn submits(v: PipelineView) -> bool {
    &&& eye_of(v.counter) == Eye::Right
    &&& v.pair_left
    &&& v.pair_right
    &&& v.chains.left_committed
    &&& v.chains.right_committed
    &&& !v.failed
}

/// The state after a successful transfer was committed for the active eye.
pub open spec fn after_commit(v: PipelineView) -> PipelineView {
    if v.failed || v.chains.size is None {
        v
    } else {
        let eye = eye_of(v.counter);
        PipelineView {
            chains: committed(v.chains, eye),
            pair_left: v.pair_left || eye == Eye::Left,
            pair_right: v.pair_right || eye == Eye::Right,
            ..v
        }
    }
}

/// The state after an end-frame call: the counter advances, and a right-eye
/// call closes the stereo pair.
pub open spec fn after_end(v: PipelineView) -> PipelineView {
    let closes = eye_of(v.counter) == Eye::Right;
    PipelineView {
        counter: counter_after(v.completed + 1),
        completed: v.completed + 1,
        pair_left: if closes { false } else { v.pair_left },
        pair_right: if closes { false } else { v.pair_right },
        submissions: if submits(v) { v.submissions + 1 } else { v.submissions },
        ..v
    }
}

/// The per-eye frame cycle: which eye is rendered, the pose snapshot of the
/// current pair, the viewport, the swap chains, and what went to the
/// compositor.
pub struct Pipeline<C> {
    counter: usize,
    completed: Ghost<nat>,
    poses: PoseSnapshot,
    samples: Ghost<nat>,
    viewport: Option<ViewportSize>,
    chains: SwapChainManager<C>,
    pair_left: bool,
    pair_right: bool,
    failed: bool,
    submissions: Ghost<nat>,
}

impl<C> View for Pipeline<C> {
    type V = PipelineView;

    closed spec fn view(&self) -> PipelineView {
        PipelineView {
            counter: self.counter as int,
            completed: self.completed@,
            poses: self.poses,
            samples: self.samples@,
            viewport: self.viewport,
            chains: self.chains@,
            pair_left: self.pair_left,
            pair_right: self.pair_right,
            failed: self.failed,
            submissions: self.submissions@,
        }
    }
}

impl<C> Pipeline<C> {
    /// The chain that `eye` renders into; meaningful once chains exist.
    pub closed spec fn chain_of(&self, eye: Eye) -> C {
        self.chains.chain_of(eye)
    }

    /// Both eyes still have the chains they had in `other`.
    pub open spec fn same_chains(&self, other: &Self) -> bool {
        &&& self.chain_of(Eye::Left) == other.chain_of(Eye::Left)
        &&& self.chain_of(Eye::Right) == other.chain_of(Eye::Right)
    }

    pub closed spec fn wf(&self) -> bool {
        &&& view_wf(self@)
        &&& self.chains.wf()
    }

    /// A well-formed pipeline's view meets the invariant that the laws of
    /// this module start from.
    pub proof fn lemma_view_wf(&self)
        requires
            self.wf(),
        ensures
            view_wf(self@),
    {
    }

    /// A pipeline before the first frame: left eye next, identity poses, no
    /// viewport and no chains.
    pub fn new() -> (r: Self)
        ensures
            r.wf(),
            r@.counter == 0,
            r@.completed == 0,
            r@.poses == PoseSnapshot::identity_spec(),
            r@.samples == 0,
            r@.viewport is None,
            r@.chains.size is None,
            r@.chains.allocations == 0,
            !r@.pair_left,
            !r@.pair_right,
            !r@.failed,
            r@.submissions == 0,
    {
        Pipeline {
            counter: 0,
            completed: Ghost(0),
            poses: PoseSnapshot::identity(),
            samples: Ghost(0),
            viewport: None,
            chains: SwapChainManager::new(),
            pair_left: false,
            pair_right: false,
            failed: false,
            submissions: Ghost(0),
        }
    }

    /// The eye of the pass in progress.
    pub fn eye(&self) -> (r: Eye)
        ensures
            r == eye_of(self@.counter),
    {
        eye_for_counter(self.counter)
    }

    /// Decides the work of a begin-frame call, given whether the runtime
    /// asks for a recenter and the controller's button mask.
    pub fn begin_frame(&self, runtime_recenter: bool, buttons: u32) -> (r: BeginFrame)
        requires
            self.wf(),
        ensures
            r.eye == eye_of(self@.counter),
            r.recenter == (runtime_recenter || buttons & RECENTER_BUTTON != 0),
            r.sample_poses == samples_on_begin(self@.completed),
            r.sample_poses == (r.eye == Eye::Left),
    {
        let eye = self.eye();
        BeginFrame {
            eye,
            recenter: runtime_recenter || buttons & RECENTER_BUTTON != 0,
            sample_poses: eye == Eye::Left,
        }
    }

    /// Stores the snapshot sampled for the current stereo pair. The snapshot
    /// belongs to the left eye's pass; during the right eye's pass the pair's
    /// snapshot is only read, and the call returns `false` and changes
    /// nothing.
    pub fn store_poses(&mut self, snapshot: PoseSnapshot) -> (r: bool)
        requires
            old(self).wf(),
        ensures
            final(self).wf(),
            r == (eye_of(old(self)@.counter) == Eye::Left),
            r ==> final(self)@ == (PipelineView { poses: snapshot, samples: old(self)@.samples + 1, ..old(self)@ }),
            !r ==> final(self)@ == old(self)@,
            final(self).same_chains(old(self)),
    {
        if self.eye() == Eye::Right {
            return false;
        }
        self.poses = snapshot;
        self.samples = Ghost(self.samples@ + 1);
        true
    }

    /// The transform for the active eye's camera frame.
    pub fn camera_motion(&self) -> (r: CameraMotion)
        ensures
            r.eye == eye_of(self@.counter),
            r.base == (if r.eye == Eye::Left { BaseTransform::SaveFromFrame } else { BaseTransform::RestoreToFrame }),
            r.offset == (Vector3 { x: 0, y: (-CAMERA_DOWN_OFFSET) as i64, z: 0 }),
            r.position == self@.poses.pose_of(r.eye).position,
            r.orientation == self@.poses.pose_of(r.eye).orientation,
    {
        let eye = self.eye();
        let pose = self.poses.pose(eye);
        CameraMotion {
            eye,
            base: match eye {
                Eye::Left => BaseTransform::SaveFromFrame,
                Eye::Right => BaseTransform::RestoreToFrame,
            },
            offset: Vector3 { x: 0, y: -CAMERA_DOWN_OFFSET, z: 0 },
            position: pose.position,
            orientation: pose.orientation,
        }
    }

    /// The size pixels are copied at, once known.
    pub fn viewport(&self) -> (r: Option<ViewportSize>)
        ensures
            r == self@.viewport,
    {
        self.viewport
    }

    /// Records a viewport size reported by the graphics API.
    pub fn observe_viewport(&mut self, size: ViewportSize)
        requires
            old(self).wf(),
        ensures
            final(self).wf(),
            final(self)@ == (PipelineView { viewport: Some(size), ..old(self)@ }),
            final(self).same_chains(old(self)),
    {
        self.viewport = Some(size);
    }

    /// Makes sure chains of `size` exist, creating them with `create` only
    /// when they do not, and copies at that size from now on.
    pub fn ensure_chains<F: Fn(ViewportSize) -> C>(&mut self, size: ViewportSize, create: F)
        requires
            old(self).wf(),
            create.requires((size,)),
        ensures
            final(self).wf(),
            final(self)@ == (PipelineView {
                viewport: Some(size),
                chains: ensured(old(self)@.chains, size),
                ..old(self)@
            }),
            old(self)@.chains.size == Some(size) ==> final(self).same_chains(old(self)),
            old(self)@.chains.size != Some(size) ==> create.ensures((size,), final(self).chain_of(Eye::Left))
                && create.ensures((size,), final(self).chain_of(Eye::Right)),
    {
        self.chains.ensure_allocated(size, create);
        self.viewport = Some(size);
    }

    /// Handles a resize notification: the old chains are released and new
    /// ones of `size` created, even when the size is unchanged.
    pub fn resize<F: Fn(ViewportSize) -> C>(&mut self, size: ViewportSize, create: F)
        requires
            old(self).wf(),
            create.requires((size,)),
        ensures
            final(self).wf(),
            final(self)@ == (PipelineView {
                viewport: Some(size),
                chains: reallocated(old(self)@.chains, size),
                ..old(self)@
            }),
            create.ensures((size,), final(self).chain_of(Eye::Left)),
            create.ensures((size,), final(self).chain_of(Eye::Right)),
    {
        self.chains.resize(size, create);
        self.viewport = Some(size);
    }

    /// The chain of the active eye, once chains exist.
    pub fn active_chain(&self) -> (r: Option<&C>)
        ensures
            r is Some <==> self@.chains.size is Some,
            r is Some ==> *r->Some_0 == self.chain_of(eye_of(self@.counter)),
    {
        self.chains.chain(self.eye())
    }

    /// The chain of `eye`, once chains exist.
    pub fn chain(&self, eye: Eye) -> (r: Option<&C>)
        ensures
            r is Some <==> self@.chains.size is Some,
            r is Some ==> *r->Some_0 == self.chain_of(eye),
    {
        self.chains.chain(eye)
    }

    /// The region to copy into `texture`, the active eye's texture: the
    /// viewport from the origin.
    pub fn copy_region(&self, texture: u32) -> (r: Result<CopyRegion, FrameError>)
        requires
            self.wf(),
        ensures
            self@.chains.size is None ==> r == Err::<CopyRegion, FrameError>(FrameError::NoSwapChains),
            self@.chains.size is Some ==> r == region_for(texture, self@.viewport->Some_0),
    {
        if self.chains.size().is_none() {
            return Err(FrameError::NoSwapChains);
        }
        match self.viewport {
            Some(size) => crate::transfer::copy_region(texture, size),
            None => Err(FrameError::NoSwapChains),
        }
    }

    /// Checks the error code read after `step` of a transfer; a non-zero
    /// code marks the pipeline failed, and it never submits again.
    pub fn check_error(&mut self, code: u32, step: GlStep) -> (r: Result<(), FrameError>)
        requires
            old(self).wf(),
        ensures
            final(self).wf(),
            r is Ok <==> code == 0,
            r is Err ==> r == Err::<(), FrameError>(FrameError::Graphics { step, code }),
            final(self)@ == (PipelineView { failed: old(self)@.failed || code != 0, ..old(self)@ }),
            final(self).same_chains(old(self)),
    {
        let r = check_error(code, step);
        if r.is_err() {
            self.failed = true;
        }
        r
    }

    /// Records that the active eye's texture was committed after a
    /// successful transfer.
    pub fn commit(&mut self)
        requires
            old(self).wf(),
        ensures
            final(self).wf(),
            final(self)@ == after_commit(old(self)@),
            final(self).same_chains(old(self)),
    {
        if self.failed || self.chains.size().is_none() {
            return;
        }
        let eye = self.eye();
        self.chains.commit(eye);
        match eye {
            Eye::Left => self.pair_left = true,
            Eye::Right => self.pair_right = true,
        }
    }

    /// Finishes an end-frame call: on the right eye of a fully committed
    /// pair, returns the layer to submit; then advances the counter.
    pub fn end_frame(&mut self) -> (r: Option<LayerEyeFov>)
        requires
            old(self).wf(),
        ensures
            final(self).wf(),
            final(self)@ == after_end(old(self)@),
            final(self).same_chains(old(self)),
            r is Some <==> submits(old(self)@),
            r is Some ==> r == Some(layer_spec(old(self)@.viewport->Some_0, old(self)@.poses)),
    {
        let eye = self.eye();
        let submit = eye == Eye::Right && self.pair_left && self.pair_right && self.chains.both_committed()
            && !self.failed;
        let r = if submit {
            match self.viewport {
                Some(size) => Some(layer(size, &self.poses)),
                None => None,
            }
        } else {
            None
        };
        if submit {
            self.submissions = Ghost(self.submissions@ + 1);
        }
        if eye == Eye::Right {
            self.pair_left = false;
            self.pair_right = false;
        }
        proof {
            lemma_counter_step(self.completed@);
        }
        self.counter = advance_counter(self.counter);
        self.completed = Ghost(self.completed@ + 1);
        proof {
            lemma_eye_flips((self.completed@ - 1) as nat);
        }
        r
    }
}

/// One pose snapshot per stereo pair: of the two begin-frame calls of pair
/// `n` (after `2n` and `2n + 1` completed end-frame calls), exactly the
/// first samples poses.
pub proof fn lemma_one_sample_per_pair(n: nat)
    ensures
        samples_on_begin(2 * n),
        !samples_on_begin(2 * n + 1),
{
    lemma_eye_alternates(n);
}

/// The compositor gets exactly one frame per stereo pair whose eyes both
/// committed, and none when only one eye did. From the start of a pair
/// (left eye next, nothing committed, chains present, no fatal error): the
/// left end-frame never submits; committing both eyes gives one submission;
/// committing only one of them gives none; and the next pair starts in the
/// same shape. A state that submits always has both eyes committed.
pub proof fn lemma_one_submission_per_pair(v: PipelineView)
    requires
        view_wf(v),
        eye_of(v.counter) == Eye::Left,
        !v.pair_left,
        v.chains.size is Some,
        !v.failed,
    ensures
        !submits(v),
        !submits(after_commit(v)),
        after_end(after_commit(after_end(after_commit(v)))).submissions == v.submissions + 1,
        after_end(after_end(after_commit(v))).submissions == v.submissions,
        after_end(after_commit(after_end(v))).submissions == v.submissions,
        after_end(after_end(v)).submissions == v.submissions,
        eye_of(after_end(after_end(v)).counter) == Eye::Left,
        !after_end(after_commit(after_end(after_commit(v)))).pair_left,
        !after_end(after_commit(after_end(after_commit(v)))).pair_right,
        forall|w: PipelineView| submits(w) ==> w.pair_left && w.pair_right,
{
    lemma_eye_flips(v.completed);
    lemma_eye_flips(v.completed + 1);
    lemma_counter_step(v.completed);
}

} // verus!
