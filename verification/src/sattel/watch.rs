//! The watcher of the configuration file, as a state machine.
//!
//! The loop that owns the file system subscription feeds the watcher what
//! happens (a start request, a batch of changed paths with the time, an
//! error, the end of the subscription) and carries out the action that the
//! watcher answers with. At most one subscription is active at a time, and
//! changes that follow each other within the cooldown give one notification.

use vstd::prelude::*;
use crate::sattel::text::same_text;

verus! {

/// The cooldown between two accepted changes, in milliseconds.
pub const COOLDOWN_MS: u64 = 300;

/// The message with which watching ends when the subscription ends.
pub open spec fn stopped_text() -> Seq<char> {
    "watching config stopped"@
}

/// What the loop hands to the watcher.
#[derive(Clone, Debug, PartialEq, Eq)]
pub enum WatchInput {
    /// A request to start watching.
    Start,
    /// Paths changed, at this time in milliseconds on a clock that does not go back.
    Changed { paths: Vec<String>, now_ms: u64 },
    /// The subscription could not be made, or reported an error.
    Failed(String),
    /// The subscription ended.
    Ended,
}

/// Mathematical value of a [`WatchInput`].
pub enum WatchInputView {
    Start,
    Changed { paths: Seq<Seq<char>>, now_ms: u64 },
    Failed(Seq<char>),
    Ended,
}

/// The characters of each path.
pub open spec fn paths_view(paths: Seq<String>) -> Seq<Seq<char>> {
    Seq::new(paths.len(), |i: int| paths[i]@)
}

impl View for WatchInput {
    type V = WatchInputView;

    open spec fn view(&self) -> WatchInputView {
        match *self {
            WatchInput::Start => WatchInputView::Start,
            WatchInput::Changed { paths, now_ms } => WatchInputView::Changed {
                paths: paths_view(paths@),
                now_ms,
            },
            WatchInput::Failed(reason) => WatchInputView::Failed(reason@),
            WatchInput::Ended => WatchInputView::Ended,
        }
    }
}

/// What the loop is to do next.
#[derive(Clone, Debug, PartialEq, Eq)]
pub enum WatchAction {
    /// Nothing: wait for what happens next.
    Nothing,
    /// Watching is already going on: return at once, with success.
    AlreadyWatching,
    /// Make sure the configuration directory exists, subscribe to it and all
    /// below it, and put the default configuration in place of a missing file.
    Subscribe,
    /// Wait this many milliseconds, then tell the user interface once that
    /// the configuration file changed.
    Notify { delay_ms: u64 },
    /// Stop and return this message as the error.
    Fail(String),
}

/// Mathematical value of a [`WatchAction`].
pub enum WatchActionView {
    Nothing,
    AlreadyWatching,
    Subscribe,
    Notify { delay_ms: u64 },
    Fail(Seq<char>),
}

impl View for WatchAction {
    type V = WatchActionView;

    open spec fn view(&self) -> WatchActionView {
        match *self {
            WatchAction::Nothing => WatchActionView::Nothing,
            WatchAction::AlreadyWatching => WatchActionView::AlreadyWatching,
            WatchAction::Subscribe => WatchActionView::Subscribe,
            WatchAction::Notify { delay_ms } => WatchActionView::Notify { delay_ms },
            WatchAction::Fail(reason) => WatchActionView::Fail(reason@),
        }
    }
}

/// Mathematical value of a [`ConfigWatcher`].
pub struct WatcherView {
    /// Whether a subscription is active.
    pub watching: bool,
    pub config_file: Seq<char>,
    pub cooldown_ms: u64,
    /// When the last change was accepted, if any was since watching started.
    pub last_change_ms: Option<u64>,
}

/// Whether the configuration file is among the paths.
pub open spec fn touches(paths: Seq<Seq<char>>, config_file: Seq<char>) -> bool {
    exists|i: int| 0 <= i < paths.len() && #[trigger] paths[i] == config_file
}

/// Whether a change at `now_ms` is far enough from the last accepted one.
pub open spec fn settled(last_change_ms: Option<u64>, now_ms: u64, cooldown_ms: u64) -> bool {
    match last_change_ms {
        None => true,
        Some(last) => if now_ms >= last {
            now_ms - last >= cooldown_ms
        } else {
            cooldown_ms == 0
        },
    }
}

/// What the watcher does with an input: the watcher afterwards and the
/// action for the loop.
pub open spec fn watch_step(w: WatcherView, input: WatchInputView) -> (WatcherView, WatchActionView) {
    match input {
        WatchInputView::Start => if w.watching {
            (w, WatchActionView::AlreadyWatching)
        } else {
            (WatcherView { watching: true, last_change_ms: None, ..w }, WatchActionView::Subscribe)
        },
        WatchInputView::Changed { paths, now_ms } => if w.watching && touches(paths, w.config_file)
            && settled(w.last_change_ms, now_ms, w.cooldown_ms) {
            (
                WatcherView { last_change_ms: Some(now_ms), ..w },
                WatchActionView::Notify { delay_ms: w.cooldown_ms / 3 },
            )
        } else {
            (w, WatchActionView::Nothing)
        },
        WatchInputView::Failed(reason) => if w.watching {
            (WatcherView { watching: false, ..w }, WatchActionView::Fail(reason))
        } else {
            (w, WatchActionView::Nothing)
        },
        WatchInputView::Ended => if w.watching {
            (WatcherView { watching: false, ..w }, WatchActionView::Fail(stopped_text()))
        } else {
            (w, WatchActionView::Nothing)
        },
    }
}

/// Whether the configuration file is among the paths.
pub fn touches_config(paths: &Vec<String>, config_file: &str) -> (yes: bool)
    ensures
        yes == touches(paths_view(paths@), config_file@),
{
    let ghost all = paths_view(paths@);
    let mut i: usize = 0;
    while i < paths.len()
        invariant
            i <= paths.len(),
            all == paths_view(paths@),
            forall|k: int| 0 <= k < i ==> #[trigger] all[k] != config_file@,
        decreases paths.len() - i,
    {
        if same_text(paths[i].as_str(), config_file) {
            assert(all[i as int] == config_file@);
            return true;
        }
        i = i + 1;
    }
    false
}

/// Whether a change at `now_ms` is far enough from the last accepted one.
pub fn is_settled(last_change_ms: Option<u64>, now_ms: u64, cooldown_ms: u64) -> (yes: bool)
    ensures
        yes == settled(last_change_ms, now_ms, cooldown_ms),
{
    match last_change_ms {
        None => true,
        Some(last) => if now_ms >= last {
            now_ms - last >= cooldown_ms
        } else {
            cooldown_ms == 0
        },
    }
}

/// The guard and the debounce of the watch loop.
pub struct ConfigWatcher {
    watching: bool,
    config_file: String,
    cooldown_ms: u64,
    last_change_ms: Option<u64>,
}

impl View for ConfigWatcher {
    type V = WatcherView;

    closed spec fn view(&self) -> WatcherView {
        WatcherView {
            watching: self.watching,
            config_file: self.config_file@,
            cooldown_ms: self.cooldown_ms,
            last_change_ms: self.last_change_ms,
        }
    }
}

impl ConfigWatcher {
    /// A watcher for a configuration file that does not watch yet.
    pub fn new(config_file: String, cooldown_ms: u64) -> (watcher: ConfigWatcher)
        ensures
            watcher@ == (WatcherView {
                watching: false,
                config_file: config_file@,
                cooldown_ms,
                last_change_ms: None,
            }),
    {
        ConfigWatcher { watching: false, config_file, cooldown_ms, last_change_ms: None }
    }

    /// Whether a subscription is active.
    pub fn is_watching(&self) -> (watching: bool)
        ensures
            watching == self@.watching,
    {
        self.watching
    }

    /// Takes one input and answers with the action for the loop.
    pub fn handle(&mut self, input: WatchInput) -> (action: WatchAction)
        ensures
            (final(self)@, action@) == watch_step(old(self)@, input@),
    {
        match input {
            WatchInput::Start => {
                if self.watching {
                    WatchAction::AlreadyWatching
                } else {
                    self.watching = true;
                    self.last_change_ms = None;
                    WatchAction::Subscribe
                }
            },
            WatchInput::Changed { paths, now_ms } => {
                if self.watching && touches_config(&paths, self.config_file.as_str()) && is_settled(
                    self.last_change_ms,
                    now_ms,
                    self.cooldown_ms,
                ) {
                    self.last_change_ms = Some(now_ms);
                    WatchAction::Notify { delay_ms: self.cooldown_ms / 3 }
                } else {
                    WatchAction::Nothing
                }
            },
            WatchInput::Failed(reason) => {
                if self.watching {
                    self.watching = false;
                    WatchAction::Fail(reason)
                } else {
                    WatchAction::Nothing
                }
            },
            WatchInput::Ended => {
                if self.watching {
                    self.watching = false;
                    WatchAction::Fail("watching config stopped".to_owned())
                } else {
                    WatchAction::Nothing
                }
            },
        }
    }
}

/// A start request while watching is going on starts nothing and changes
/// nothing; so of two start requests in a row at most the first subscribes.
pub proof fn lemma_one_subscription(w: WatcherView)
    ensures
        w.watching ==> watch_step(w, WatchInputView::Start) == (w, WatchActionView::AlreadyWatching),
        watch_step(w, WatchInputView::Start).0.watching,
        watch_step(watch_step(w, WatchInputView::Start).0, WatchInputView::Start).1
            == WatchActionView::AlreadyWatching,
        watch_step(watch_step(w, WatchInputView::Start).0, WatchInputView::Start).0 == watch_step(
            w,
            WatchInputView::Start,
        ).0,
{
}

/// When the subscription fails or ends, the guard is released: the next
/// start request subscribes again.
pub proof fn lemma_guard_released(w: WatcherView, input: WatchInputView)
    requires
        w.watching,
        input is Failed || input is Ended,
    ensures
        !watch_step(w, input).0.watching,
        watch_step(w, input).1 is Fail,
        watch_step(watch_step(w, input).0, WatchInputView::Start).1 == WatchActionView::Subscribe,
{
}

/// Of two changes of the configuration file, the first one after watching
/// started, the first is notified; the second is notified if and only if it
/// comes at least the cooldown after the first.
pub proof fn lemma_debounce(w: WatcherView, first: Seq<Seq<char>>, t1: u64, second: Seq<Seq<char>>, t2: u64)
    requires
        w.watching,
        w.last_change_ms is None,
        touches(first, w.config_file),
        touches(second, w.config_file),
        t1 <= t2,
    ensures
        watch_step(w, WatchInputView::Changed { paths: first, now_ms: t1 }).1 == (
            WatchActionView::Notify { delay_ms: w.cooldown_ms / 3 }),
        watch_step(
            watch_step(w, WatchInputView::Changed { paths: first, now_ms: t1 }).0,
            WatchInputView::Changed { paths: second, now_ms: t2 },
        ).1 == if t2 - t1 >= w.cooldown_ms {
            WatchActionView::Notify { delay_ms: w.cooldown_ms / 3 }
        } else {
            WatchActionView::Nothing
        },
{
}

/// A change that does not touch the configuration file is never notified
/// and leaves the watcher as it was.
pub proof fn lemma_other_paths_ignored(w: WatcherView, paths: Seq<Seq<char>>, now_ms: u64)
    requires
        !touches(paths, w.config_file),
    ensures
        watch_step(w, WatchInputView::Changed { paths, now_ms }) == (w, WatchActionView::Nothing),
{
}

/// The watcher after it took all of `inputs`, one by one.
pub open spec fn watch_run(w: WatcherView, inputs: Seq<WatchInputView>) -> WatcherView
    decreases inputs.len(),
{
    if inputs.len() == 0 {
        w
    } else {
        watch_step(watch_run(w, inputs.drop_last()), inputs.last()).0
    }
}

/// The action with which the watcher answers the input at position `k` of `inputs`.
pub open spec fn watch_action(w: WatcherView, inputs: Seq<WatchInputView>, k: int) -> WatchActionView
    recommends
        0 <= k < inputs.len(),
{
    watch_step(watch_run(w, inputs.take(k)), inputs[k]).1
}

/// Whether all inputs are changes, at times that do not go back.
pub open spec fn changes_in_order(inputs: Seq<WatchInputView>) -> bool {
    &&& forall|i: int| 0 <= i < inputs.len() ==> (#[trigger] inputs[i]) is Changed
    &&& forall|i: int, j: int|
        0 <= i <= j < inputs.len() ==> (#[trigger] inputs[i])->now_ms <= (#[trigger] inputs[j])->now_ms
}

/// After a change was notified, the watcher remembers a time that is not
/// before that change and not after the latest change.
pub proof fn lemma_last_change_kept(w: WatcherView, inputs: Seq<WatchInputView>, j: int, n: int)
    requires
        changes_in_order(inputs),
        0 <= j < n <= inputs.len(),
        watch_action(w, inputs, j) is Notify,
    ensures
        watch_run(w, inputs.take(n)).cooldown_ms == w.cooldown_ms,
        watch_run(w, inputs.take(n)).last_change_ms is Some,
        inputs[j]->now_ms <= watch_run(w, inputs.take(n)).last_change_ms->Some_0 <= inputs[n - 1]->now_ms,
    decreases n,
{
    assert(inputs.take(n).drop_last() =~= inputs.take(n - 1));
    assert(inputs.take(n).last() == inputs[n - 1]);
    assert(inputs[n - 1] is Changed);
    if n - 1 > j {
        lemma_last_change_kept(w, inputs, j, n - 1);
        assert(inputs[n - 2]->now_ms <= inputs[n - 1]->now_ms);
    } else {
        lemma_cooldown_kept(w, inputs, j);
    }
}

/// Changes leave the cooldown as it is.
pub proof fn lemma_cooldown_kept(w: WatcherView, inputs: Seq<WatchInputView>, n: int)
    requires
        0 <= n <= inputs.len(),
    ensures
        watch_run(w, inputs.take(n)).cooldown_ms == w.cooldown_ms,
    decreases n,
{
    if n == 0 {
        assert(inputs.take(0).len() == 0);
    } else {
        lemma_cooldown_kept(w, inputs, n - 1);
        assert(inputs.take(n).drop_last() =~= inputs.take(n - 1));
        assert(inputs.take(n).last() == inputs[n - 1]);
    }
}

/// One notification per settled change: in a run of changes on a clock that
/// does not go back, any two changes that are notified lie at least the
/// cooldown apart.
pub proof fn lemma_notifications_are_spaced(w: WatcherView, inputs: Seq<WatchInputView>, j: int, k: int)
    requires
        changes_in_order(inputs),
        0 <= j < k < inputs.len(),
        watch_action(w, inputs, j) is Notify,
        watch_action(w, inputs, k) is Notify,
    ensures
        inputs[k]->now_ms - inputs[j]->now_ms >= w.cooldown_ms,
{
    lemma_last_change_kept(w, inputs, j, k);
    assert(inputs[k] is Changed);
    assert(inputs[k - 1]->now_ms <= inputs[k]->now_ms);
}

} // verus!
