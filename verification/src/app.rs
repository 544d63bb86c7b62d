//! The application state and its transitions.
//!
//! One frame of the surrounding shell feeds this state machine: a dropped
//! file goes through [`App::note_dropped_file`], a ready byte buffer is
//! dispatched by [`App::begin_pending_load`], the outcome of spawning the
//! worker lands in [`App::note_spawn_result`], and the messages the worker
//! sent since the last frame are drained by [`App::drain_load_messages`].

use vstd::prelude::*;

use vstd::string::StringExecFns;

use crate::persist::PersistentState;
use crate::status::{MessageEffects, Progress, ThreadLoadStatus};
use crate::status::{any_render, any_repaint, message_renders, message_repaints};
use crate::util::{dec_digits, u64_to_dec_string};

verus! {

/// When the shell redraws: only on input and events, or on every tick.
///
/// The mode is `Continuous` exactly while a background load is in flight,
/// so that the channel is drained promptly; receipt of a terminal load
/// status switches it back to `Reactive`. No other transitions exist.
#[derive(Clone, Copy, Debug, Eq, PartialEq, Structural)]
pub enum RunMode {
    Reactive,
    Continuous,
}

/// A file dropped onto the window: its path or name, its MIME type when
/// the host reports one, and its byte buffer, which may arrive on a later
/// frame than the drop itself.
pub struct DroppedFile {
    pub path: Option<String>,
    pub name: String,
    pub mime: String,
    pub bytes: Option<Vec<u8>>,
}

impl DroppedFile {
    /// The name part of the file's summary line: the path when the host
    /// reports one, else the file's name, else a placeholder.
    pub open spec fn summary_name(self) -> Seq<char> {
        match self.path {
            Some(p) => p@,
            None => if self.name@.len() > 0 {
                self.name@
            } else {
                "???"@
            },
        }
    }

    /// The details part of the summary line: the MIME type when reported,
    /// then the byte count once the buffer has arrived.
    pub open spec fn summary_details(self) -> Seq<char> {
        (if self.mime@.len() > 0 {
            "type: "@ + self.mime@ + ", "@
        } else {
            Seq::<char>::empty()
        }) + (match self.bytes {
            Some(b) => dec_digits(b@.len()) + " bytes"@,
            None => "loading..."@,
        })
    }

    /// The whole summary line shown for the tracked dropped file.
    pub open spec fn summary_view(self) -> Seq<char> {
        self.summary_name() + " ("@ + self.summary_details() + ")"@
    }

    /// Render the summary line for this file.
    pub fn summary(&self) -> (r: String)
        ensures
            r@ == self.summary_view(),
    {
        let mut r = match &self.path {
            Some(p) => p.clone(),
            None => {
                if !self.name.as_str().is_empty() {
                    self.name.clone()
                } else {
                    "???".to_owned()
                }
            }
        };
        r.append(" (");
        if !self.mime.as_str().is_empty() {
            r.append("type: ");
            r.append(self.mime.as_str());
            r.append(", ");
        }
        match &self.bytes {
            Some(b) => {
                let count = u64_to_dec_string(b.len() as u64);
                r.append(count.as_str());
                r.append(" bytes");
            }
            None => {
                r.append("loading...");
            }
        }
        r.append(")");
        proof {
            assert(r@ =~= self.summary_view());
        }
        r
    }
}

/// What one intake step asks of the shell: start a background load of the
/// dispatched bytes, keep repainting until the buffer arrives, or nothing.
pub enum IntakeStep {
    Dispatch(Vec<u8>),
    AwaitBytes,
    Idle,
}

/// The state the user interface carries between frames.
pub struct App<H, E> {
    /// The persistent part, saved at shutdown.
    pub p_state: PersistentState,
    /// The redraw mode of the shell.
    pub run_mode: RunMode,
    /// Whether the one-time look-and-feel setup has run.
    pub ctx_init: bool,
    /// The dropped file being tracked, if any: at most one at a time.
    pub dropped_files: Vec<DroppedFile>,
    /// The most recently drained load status.
    pub load_status: ThreadLoadStatus<H, E>,
    /// The display name of the image being or last loaded.
    pub disk_image_name: Option<String>,
    /// The loaded image handle, owned here once a load succeeds.
    pub disk_image: Option<H>,
}

impl<H, E> ThreadLoadStatus<H, E> {
    /// Any progress a status carries is a fraction in [0, 1].
    pub open spec fn wf(self) -> bool {
        self matches ThreadLoadStatus::Loading(p) ==> p.wf()
    }
}

impl<H, E> App<H, E> {
    /// Well-formed state: at most one tracked dropped file, and any stored
    /// progress is a fraction in [0, 1].
    pub open spec fn wf(self) -> bool {
        &&& self.dropped_files@.len() <= 1
        &&& self.load_status.wf()
    }

    /// Intake accepts a drop only while no file is tracked and no load is
    /// in flight.
    pub open spec fn accepts_drop(self) -> bool {
        self.dropped_files@.len() == 0 && !(self.run_mode is Continuous)
    }

    /// A dropped file is being tracked.
    pub open spec fn has_pending_file(self) -> bool {
        self.dropped_files@.len() > 0
    }

    /// The tracked file's byte buffer has arrived.
    pub open spec fn pending_bytes_ready(self) -> bool {
        self.has_pending_file() && self.dropped_files@[0].bytes is Some
    }

    /// What the progress bar shows: the fraction of the load finished so
    /// far, in parts per million, or nothing when no load is under way.
    pub open spec fn progress_view(self) -> Option<u32> {
        match self.load_status {
            ThreadLoadStatus::Loading(p) => Some(p.ppm),
            _ => None,
        }
    }

    /// The state after one drained load-status message is applied.
    pub open spec fn after_message(self, msg: ThreadLoadStatus<H, E>) -> App<H, E> {
        match msg {
            ThreadLoadStatus::Inactive => self,
            ThreadLoadStatus::Loading(p) => App {
                load_status: ThreadLoadStatus::Loading(p),
                ..self
            },
            ThreadLoadStatus::Success(h) => App {
                disk_image: Some(h),
                load_status: ThreadLoadStatus::Inactive,
                run_mode: RunMode::Reactive,
                ..self
            },
            ThreadLoadStatus::Error(e) => App {
                load_status: ThreadLoadStatus::Error(e),
                run_mode: RunMode::Reactive,
                ..self
            },
        }
    }

    /// The state after a whole drain is applied, first message first.
    pub open spec fn after_messages(self, msgs: Seq<ThreadLoadStatus<H, E>>) -> App<H, E>
        decreases msgs.len(),
    {
        if msgs.len() == 0 {
            self
        } else {
            self.after_messages(msgs.drop_last()).after_message(msgs.last())
        }
    }
}

impl<H, E> Default for App<H, E> {
    /// The state before the first frame: reactive, nothing tracked,
    /// nothing loaded, and the greeting as the label.
    fn default() -> (r: Self)
        ensures
            r.wf(),
            r.p_state.label@ == "Hello World!"@,
            r.run_mode is Reactive,
            !r.ctx_init,
            r.dropped_files@.len() == 0,
            r.load_status is Inactive,
            r.disk_image_name is None,
            r.disk_image is None,
    {
        App {
            p_state: PersistentState { label: "Hello World!".to_owned() },
            run_mode: RunMode::Reactive,
            ctx_init: false,
            dropped_files: Vec::new(),
            load_status: ThreadLoadStatus::Inactive,
            disk_image_name: None,
            disk_image: None,
        }
    }
}

impl<H, E> App<H, E> {
    /// The state at startup: the default, with the persistent part
    /// restored from storage when a snapshot was found there.
    pub fn new(persisted: Option<PersistentState>) -> (r: Self)
        ensures
            r.wf(),
            r.run_mode is Reactive,
            !r.ctx_init,
            r.dropped_files@.len() == 0,
            r.load_status is Inactive,
            r.disk_image_name is None,
            r.disk_image is None,
            persisted matches Some(p) ==> r.p_state == p,
            persisted is None ==> r.p_state.label@ == "Hello World!"@,
    {
        let mut app_state = Self::default();
        match persisted {
            Some(p) => {
                app_state.p_state = p;
            }
            None => {}
        }
        app_state
    }

    /// Record that the one-time look-and-feel setup has run.
    pub fn ctx_init(&mut self)
        ensures
            final(self).ctx_init,
            final(self).p_state == old(self).p_state,
            final(self).run_mode == old(self).run_mode,
            final(self).dropped_files == old(self).dropped_files,
            final(self).load_status == old(self).load_status,
            final(self).disk_image_name == old(self).disk_image_name,
            final(self).disk_image == old(self).disk_image,
    {
        self.ctx_init = true;
    }

    /// Forget the tracked dropped file.
    pub fn clear_dropped_files(&mut self)
        ensures
            final(self).dropped_files@.len() == 0,
            final(self).p_state == old(self).p_state,
            final(self).run_mode == old(self).run_mode,
            final(self).ctx_init == old(self).ctx_init,
            final(self).load_status == old(self).load_status,
            final(self).disk_image_name == old(self).disk_image_name,
            final(self).disk_image == old(self).disk_image,
    {
        self.dropped_files.clear();
    }

    /// Take in the first file of a frame's drop events. A drop while a
    /// file is already tracked, or while a load is in flight, is a no-op:
    /// the tracked file and the in-flight load are unaffected.
    pub fn note_dropped_file(&mut self, file: DroppedFile)
        ensures
            !old(self).accepts_drop() ==> *final(self) == *old(self),
            old(self).accepts_drop() ==> ({
                &&& final(self).dropped_files@ == seq![file]
                &&& final(self).p_state == old(self).p_state
                &&& final(self).run_mode == old(self).run_mode
                &&& final(self).ctx_init == old(self).ctx_init
                &&& final(self).load_status == old(self).load_status
                &&& final(self).disk_image_name == old(self).disk_image_name
                &&& final(self).disk_image == old(self).disk_image
            }),
            old(self).wf() ==> final(self).wf(),
    {
        if self.dropped_files.len() == 0 && !matches!(self.run_mode, RunMode::Continuous) {
            self.dropped_files.push(file);
            proof {
                assert(self.dropped_files@ =~= seq![file]);
            }
        }
    }

    /// Dispatch the tracked file once its bytes have arrived: hand the
    /// buffer out exactly once, record the file's name as the image name,
    /// discard the old image handle before any terminal message of the new
    /// load can arrive, and clear the tracked-file slot. While the buffer
    /// has not arrived, ask the shell to keep repainting.
    pub fn begin_pending_load(&mut self) -> (r: IntakeStep)
        ensures
            old(self).pending_bytes_ready() ==> ({
                &&& r matches IntakeStep::Dispatch(b)
                    && old(self).dropped_files@[0].bytes matches Some(bb) && b == bb
                &&& final(self).disk_image is None
                &&& final(self).disk_image_name matches Some(n)
                    && n == old(self).dropped_files@[0].name
                &&& final(self).dropped_files@.len() == 0
                &&& final(self).p_state == old(self).p_state
                &&& final(self).run_mode == old(self).run_mode
                &&& final(self).ctx_init == old(self).ctx_init
                &&& final(self).load_status == old(self).load_status
            }),
            old(self).has_pending_file() && !old(self).pending_bytes_ready() ==> ({
                &&& r is AwaitBytes
                &&& *final(self) == *old(self)
            }),
            !old(self).has_pending_file() ==> r is Idle && *final(self) == *old(self),
            old(self).wf() ==> final(self).wf(),
    {
        if self.dropped_files.len() == 0 {
            IntakeStep::Idle
        } else if self.dropped_files[0].bytes.is_some() {
            let file = self.dropped_files.remove(0);
            self.dropped_files.clear();
            let b = match file.bytes {
                Some(b) => b,
                None => {
                    proof {
                        assert(false);
                    }
                    Vec::new()
                }
            };
            self.disk_image = None;
            self.disk_image_name = Some(file.name);
            IntakeStep::Dispatch(b)
        } else {
            IntakeStep::AwaitBytes
        }
    }

    /// Record whether the worker thread could be spawned: on success the
    /// shell redraws continuously until the load's terminal message; on
    /// failure nothing changes and the load silently does not start.
    pub fn note_spawn_result(&mut self, ok: bool)
        ensures
            !ok ==> *final(self) == *old(self),
            ok ==> ({
                &&& final(self).run_mode is Continuous
                &&& final(self).p_state == old(self).p_state
                &&& final(self).ctx_init == old(self).ctx_init
                &&& final(self).dropped_files == old(self).dropped_files
                &&& final(self).load_status == old(self).load_status
                &&& final(self).disk_image_name == old(self).disk_image_name
                &&& final(self).disk_image == old(self).disk_image
            }),
            old(self).wf() ==> final(self).wf(),
    {
        if ok {
            self.run_mode = RunMode::Continuous;
        }
    }

    /// Apply one drained load-status message: a progress report updates
    /// the bar; a terminal message stores the handle or the error and
    /// switches the redraw mode back to reactive.
    pub fn apply_load_message(&mut self, msg: ThreadLoadStatus<H, E>) -> (fx: MessageEffects)
        ensures
            *final(self) == old(self).after_message(msg),
            fx.repaint == message_repaints(msg),
            fx.render == message_renders(msg),
    {
        match msg {
            ThreadLoadStatus::Inactive => MessageEffects { repaint: false, render: false },
            ThreadLoadStatus::Loading(p) => {
                self.load_status = ThreadLoadStatus::Loading(p);
                MessageEffects { repaint: true, render: false }
            }
            ThreadLoadStatus::Success(h) => {
                self.disk_image = Some(h);
                self.load_status = ThreadLoadStatus::Inactive;
                self.run_mode = RunMode::Reactive;
                MessageEffects { repaint: true, render: true }
            }
            ThreadLoadStatus::Error(e) => {
                self.load_status = ThreadLoadStatus::Error(e);
                self.run_mode = RunMode::Reactive;
                MessageEffects { repaint: true, render: false }
            }
        }
    }

    /// Drain a whole frame's worth of messages, oldest first, so that no
    /// backlog builds up when redraws are slower than progress updates.
    /// The effects say whether any message asked for a repaint and whether
    /// a newly stored image must be rendered.
    pub fn drain_load_messages(&mut self, msgs: Vec<ThreadLoadStatus<H, E>>) -> (fx: MessageEffects)
        ensures
            *final(self) == old(self).after_messages(msgs@),
            fx.repaint == any_repaint(msgs@),
            fx.render == any_render(msgs@),
    {
        let ghost orig = msgs@;
        let ghost mut i: int = 0;
        let mut msgs = msgs;
        let mut repaint = false;
        let mut render = false;
        proof {
            assert(orig.take(0) =~= Seq::<ThreadLoadStatus<H, E>>::empty());
        }
        while msgs.len() > 0
            invariant
                0 <= i <= orig.len(),
                msgs@ == orig.skip(i),
                *self == old(self).after_messages(orig.take(i)),
                repaint == any_repaint(orig.take(i)),
                render == any_render(orig.take(i)),
            decreases msgs@.len(),
        {
            let m = msgs.remove(0);
            proof {
                assert(m == orig[i]);
                assert(msgs@ =~= orig.skip(i + 1));
                assert(orig.take(i + 1).drop_last() =~= orig.take(i));
                assert(orig.take(i + 1).last() == orig[i]);
            }
            let fx = self.apply_load_message(m);
            repaint = repaint || fx.repaint;
            render = render || fx.render;
            proof {
                i = i + 1;
            }
        }
        proof {
            assert(orig.take(i) =~= orig);
        }
        MessageEffects { repaint, render }
    }

    /// What the progress bar shows, in parts per million: the most
    /// recently drained progress fraction, or nothing when no load is
    /// under way.
    pub fn current_progress(&self) -> (r: Option<u32>)
        ensures
            r == self.progress_view(),
    {
        match &self.load_status {
            ThreadLoadStatus::Loading(p) => Some(p.ppm),
            _ => None,
        }
    }

    /// Whether the shell must request a repaint every tick.
    pub fn continuous_mode(&self) -> (r: bool)
        ensures
            r == (self.run_mode is Continuous),
    {
        matches!(self.run_mode, RunMode::Continuous)
    }

    /// Whether the one-time look-and-feel setup is still owed.
    pub fn needs_ctx_init(&self) -> (r: bool)
        ensures
            r == !self.ctx_init,
    {
        !self.ctx_init
    }

    /// The name shown beside the loaded image's metadata.
    pub fn image_display_name(&self) -> (r: String)
        ensures
            self.disk_image_name matches Some(n) ==> r@ == n@,
            self.disk_image_name is None ==> r@ == "unknown"@,
    {
        match &self.disk_image_name {
            Some(n) => n.clone(),
            None => "unknown".to_owned(),
        }
    }

    /// The persistent part, as written to storage at shutdown.
    pub fn snapshot(&self) -> (r: PersistentState)
        ensures
            r == self.p_state,
    {
        PersistentState { label: self.p_state.label.clone() }
    }
}

/// One message keeps the state well formed, as long as any progress it
/// carries is a fraction.
pub proof fn lemma_message_preserves_wf<H, E>(s: App<H, E>, msg: ThreadLoadStatus<H, E>)
    requires
        s.wf(),
        msg.wf(),
    ensures
        s.after_message(msg).wf(),
{
}

/// A whole drain keeps the state well formed: the fraction on the bar
/// stays in [0, 1] whatever the worker sent.
pub proof fn lemma_drain_preserves_wf<H, E>(s: App<H, E>, msgs: Seq<ThreadLoadStatus<H, E>>)
    requires
        s.wf(),
        forall|j: int| 0 <= j < msgs.len() ==> (#[trigger] msgs[j]).wf(),
    ensures
        s.after_messages(msgs).wf(),
    decreases msgs.len(),
{
    if msgs.len() > 0 {
        lemma_drain_preserves_wf(s, msgs.drop_last());
        lemma_message_preserves_wf(s.after_messages(msgs.drop_last()), msgs.last());
    }
}

/// A drain only ever moves the load status, the redraw mode and the image
/// handle: the persistent state, the setup flag, the tracked file and the
/// image name are exactly what they were before it.
pub proof fn lemma_drain_touches_only_load_state<H, E>(
    s: App<H, E>,
    msgs: Seq<ThreadLoadStatus<H, E>>,
)
    ensures
        s.after_messages(msgs).p_state == s.p_state,
        s.after_messages(msgs).ctx_init == s.ctx_init,
        s.after_messages(msgs).dropped_files == s.dropped_files,
        s.after_messages(msgs).disk_image_name == s.disk_image_name,
    decreases msgs.len(),
{
    if msgs.len() > 0 {
        lemma_drain_touches_only_load_state(s, msgs.drop_last());
    }
}

/// The bar reflects the most recently drained progress value: a drain
/// whose last message is a progress report leaves exactly that fraction
/// on display, and the load stays in flight.
pub proof fn lemma_progress_reflects_last<H, E>(
    s: App<H, E>,
    msgs: Seq<ThreadLoadStatus<H, E>>,
    p: Progress,
)
    requires
        msgs.len() > 0,
        msgs.last() == ThreadLoadStatus::<H, E>::Loading(p),
    ensures
        s.after_messages(msgs).load_status == ThreadLoadStatus::<H, E>::Loading(p),
        s.after_messages(msgs).progress_view() == Some(p.ppm),
        s.after_messages(msgs).run_mode == s.after_messages(msgs.drop_last()).run_mode,
        s.after_messages(msgs).disk_image == s.after_messages(msgs.drop_last()).disk_image,
{
}

/// After a drain that ends in a `Success` message the redraw mode is
/// reactive again, the stored handle is the one from that message (any
/// old handle is discarded), and no load shows as in flight.
pub proof fn lemma_success_drained<H, E>(s: App<H, E>, msgs: Seq<ThreadLoadStatus<H, E>>, h: H)
    requires
        msgs.len() > 0,
        msgs.last() == ThreadLoadStatus::<H, E>::Success(h),
    ensures
        s.after_messages(msgs).run_mode is Reactive,
        s.after_messages(msgs).disk_image == Some(h),
        s.after_messages(msgs).load_status is Inactive,
{
}

/// Whichever message is the last terminal one of a drain, the redraw mode
/// ends reactive: later progress or idle messages never reopen it.
pub proof fn lemma_last_terminal_goes_reactive<H, E>(
    s: App<H, E>,
    msgs: Seq<ThreadLoadStatus<H, E>>,
    k: int,
)
    requires
        0 <= k < msgs.len(),
        msgs[k] is Success || msgs[k] is Error,
        forall|j: int|
            k < j < msgs.len() ==> !((#[trigger] msgs[j]) is Success) && !(msgs[j] is Error),
    ensures
        s.after_messages(msgs).run_mode is Reactive,
    decreases msgs.len(),
{
    if k < msgs.len() - 1 {
        assert(msgs.drop_last()[k] == msgs[k]);
        assert forall|j: int|
            k < j < msgs.drop_last().len() implies !((#[trigger] msgs.drop_last()[j]) is Success)
            && !(msgs.drop_last()[j] is Error) by {
            assert(msgs.drop_last()[j] == msgs[j]);
        }
        lemma_last_terminal_goes_reactive(s, msgs.drop_last(), k);
        assert(!(msgs[msgs.len() - 1] is Success) && !(msgs[msgs.len() - 1] is Error));
    }
}

/// A drain without any `Success` message leaves the stored handle exactly
/// as it was: progress, idle and error messages never touch it.
pub proof fn lemma_drain_without_success_keeps_handle<H, E>(
    s: App<H, E>,
    msgs: Seq<ThreadLoadStatus<H, E>>,
)
    requires
        forall|j: int| 0 <= j < msgs.len() ==> !((#[trigger] msgs[j]) is Success),
    ensures
        s.after_messages(msgs).disk_image == s.disk_image,
    decreases msgs.len(),
{
    if msgs.len() > 0 {
        assert forall|j: int|
            0 <= j < msgs.drop_last().len() implies !(
        (#[trigger] msgs.drop_last()[j]) is Success) by {
            assert(msgs.drop_last()[j] == msgs[j]);
        }
        lemma_drain_without_success_keeps_handle(s, msgs.drop_last());
        assert(!(msgs[msgs.len() - 1] is Success));
    }
}

/// A `Success` drained with nothing but idle messages after it settles the
/// state: reactive mode, no load in flight, and that handle stored. The
/// worker sends exactly one terminal message per load and sends it last,
/// so within one drain nothing real follows a terminal; a drain such as a
/// `Success` followed by a progress report, which would leave the bar
/// showing that progress, is therefore left out here.
pub proof fn lemma_success_settles<H, E>(
    s: App<H, E>,
    msgs: Seq<ThreadLoadStatus<H, E>>,
    k: int,
    h: H,
)
    requires
        0 <= k < msgs.len(),
        msgs[k] == ThreadLoadStatus::<H, E>::Success(h),
        forall|j: int| k < j < msgs.len() ==> (#[trigger] msgs[j]) is Inactive,
    ensures
        s.after_messages(msgs).run_mode is Reactive,
        s.after_messages(msgs).load_status is Inactive,
        s.after_messages(msgs).disk_image == Some(h),
    decreases msgs.len(),
{
    if k < msgs.len() - 1 {
        assert(msgs.drop_last()[k] == msgs[k]);
        assert forall|j: int|
            k < j < msgs.drop_last().len() implies (#[trigger] msgs.drop_last()[j]) is Inactive by {
            assert(msgs.drop_last()[j] == msgs[j]);
        }
        lemma_success_settles(s, msgs.drop_last(), k, h);
        assert(msgs[msgs.len() - 1] is Inactive);
    }
}

/// An `Error` drained with nothing but idle messages after it settles the
/// state: reactive mode and the error on record; and when the drain holds
/// no `Success` at all, the stored handle is exactly what it was when the
/// drain began. The exclusion of real messages after the terminal is as
/// for [`lemma_success_settles`].
pub proof fn lemma_error_settles<H, E>(
    s: App<H, E>,
    msgs: Seq<ThreadLoadStatus<H, E>>,
    k: int,
    e: E,
)
    requires
        0 <= k < msgs.len(),
        msgs[k] == ThreadLoadStatus::<H, E>::Error(e),
        forall|j: int| k < j < msgs.len() ==> (#[trigger] msgs[j]) is Inactive,
    ensures
        s.after_messages(msgs).run_mode is Reactive,
        s.after_messages(msgs).load_status == ThreadLoadStatus::<H, E>::Error(e),
        (forall|j: int| 0 <= j < msgs.len() ==> !((#[trigger] msgs[j]) is Success))
            ==> s.after_messages(msgs).disk_image == s.disk_image,
    decreases msgs.len(),
{
    if k < msgs.len() - 1 {
        assert(msgs.drop_last()[k] == msgs[k]);
        assert forall|j: int|
            k < j < msgs.drop_last().len() implies (#[trigger] msgs.drop_last()[j]) is Inactive by {
            assert(msgs.drop_last()[j] == msgs[j]);
        }
        lemma_error_settles(s, msgs.drop_last(), k, e);
        assert(msgs[msgs.len() - 1] is Inactive);
    }
    if forall|j: int| 0 <= j < msgs.len() ==> !((#[trigger] msgs[j]) is Success) {
        lemma_drain_without_success_keeps_handle(s, msgs);
    }
}

/// After a drain that ends in an `Error` message the redraw mode is
/// reactive again, the error is on record, and the stored handle is
/// exactly what it was before that message: an error never clears it.
/// (A handle is cleared only at dispatch of a new load, by
/// [`App::begin_pending_load`], before any terminal message arrives.)
pub proof fn lemma_error_drained<H, E>(s: App<H, E>, msgs: Seq<ThreadLoadStatus<H, E>>, e: E)
    requires
        msgs.len() > 0,
        msgs.last() == ThreadLoadStatus::<H, E>::Error(e),
    ensures
        s.after_messages(msgs).run_mode is Reactive,
        s.after_messages(msgs).load_status == ThreadLoadStatus::<H, E>::Error(e),
        s.after_messages(msgs).disk_image == s.after_messages(msgs.drop_last()).disk_image,
{
}

} // verus!
