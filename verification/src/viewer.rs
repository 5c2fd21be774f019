//! The slideshow: a buffer of media items that only grows, a position in
//! it, a timer that moves the position on, and the rule that asks for the
//! next page before the position reaches the end of the buffer.
//!
//! The slideshow does no work outside of its own state. Each step takes a
//! message, changes the state, and hands back what is to be done outside:
//! whether to paint, what to do with the timer, whether to send the message
//! that loads more, which address to fetch, and what to store.

use vstd::prelude::*;
use crate::data::{ItemModel, PageModel, RedditItem, RedditListings};
use crate::listing::listing;
use crate::text::{decimal, decimal_string, parse_bool, parse_u64, parsed_bool, parsed_u64};

verus! {

/// The number of entries that one page is asked to hold.
pub const LIMIT: usize = 50;

/// The interval of the timer, in seconds, where none is stored.
pub const DEFAULT_TIMEOUT: u64 = 10;

/// The key under which the interval of the timer is stored.
pub open spec fn timeout_key() -> Seq<char> {
    "TIMEOUT_KEY"@
}

/// The key under which it is stored whether the timer runs.
pub open spec fn timeout_enabled_key() -> Seq<char> {
    "TIMEOUT_ENABLED_KEY"@
}

/// The number of items ahead of the position below which more are asked
/// for: a third of a page.
pub open spec fn low_watermark() -> int {
    LIMIT as int / 3
}

/// What is to be done with the timer after a step.
#[derive(Clone, Copy, Debug, PartialEq, Eq)]
pub enum TimerCommand {
    /// Leave the timer as it is.
    Keep,
    /// Cancel the timer that runs, if one does.
    Cancel,
    /// Cancel the timer that runs, if one does, then start one that fires
    /// every so many seconds.
    Restart(u64),
}

/// A value to be kept in the store of preferences, under its key.
#[derive(Clone, Debug, PartialEq, Eq)]
pub struct StoreRequest {
    pub key: String,
    pub value: String,
}

/// What is to be done outside after a step.
#[derive(Clone, Debug, PartialEq, Eq)]
pub struct Effects {
    /// Whether the slideshow is to be painted anew.
    pub render: bool,
    /// What is to be done with the timer.
    pub timer: TimerCommand,
    /// Whether the message that loads more items is to be sent.
    pub request_load: bool,
    /// The address of the page that is to be fetched.
    pub fetch: Option<String>,
    /// The preference that is to be stored.
    pub store: Option<StoreRequest>,
}

/// Model of [`Effects`].
pub struct EffectsModel {
    pub render: bool,
    pub timer: TimerCommand,
    pub request_load: bool,
    pub fetch: Option<Seq<char>>,
    pub store: Option<(Seq<char>, Seq<char>)>,
}

impl DeepView for Effects {
    type V = EffectsModel;

    open spec fn deep_view(&self) -> EffectsModel {
        EffectsModel {
            render: self.render,
            timer: self.timer,
            request_load: self.request_load,
            fetch: self.fetch.deep_view(),
            store: match self.store {
                Some(request) => Some((request.key@, request.value@)),
                None => None,
            },
        }
    }
}

/// What can happen to the slideshow.
#[derive(Debug, PartialEq, Eq)]
pub enum Msg {
    /// The timer is switched on or off.
    TimeoutToggle,
    /// The interval of the timer is set to what this text spells.
    TimeoutSet(String),
    /// The position is set.
    SetIndex(i32),
    /// The position moves on by one.
    NextPicture,
    /// The timer fired.
    Tick,
    /// The position moves back by one.
    PrevPicture,
    /// The page that was asked for could not be had, or was of no use.
    ItemsFailed,
    /// The page that was asked for arrived: its items and its cursor.
    ItemsLoaded((Vec<RedditItem>, String)),
    /// More items are to be loaded.
    LoadItems,
}

/// Model of [`Msg`].
pub enum MsgModel {
    TimeoutToggle,
    TimeoutSet(Seq<char>),
    SetIndex(int),
    NextPicture,
    Tick,
    PrevPicture,
    ItemsFailed,
    ItemsLoaded(Seq<ItemModel>, Seq<char>),
    LoadItems,
}

impl DeepView for Msg {
    type V = MsgModel;

    open spec fn deep_view(&self) -> MsgModel {
        match *self {
            Msg::TimeoutToggle => MsgModel::TimeoutToggle,
            Msg::TimeoutSet(text) => MsgModel::TimeoutSet(text@),
            Msg::SetIndex(index) => MsgModel::SetIndex(index as int),
            Msg::NextPicture => MsgModel::NextPicture,
            Msg::Tick => MsgModel::Tick,
            Msg::PrevPicture => MsgModel::PrevPicture,
            Msg::ItemsFailed => MsgModel::ItemsFailed,
            Msg::ItemsLoaded(page) => MsgModel::ItemsLoaded(page.0.deep_view(), page.1@),
            Msg::LoadItems => MsgModel::LoadItems,
        }
    }
}

/// The state of the slideshow.
pub struct Model {
    timeout: u64,
    timeout_enable: bool,
    items: Vec<RedditItem>,
    current_index: i32,
    url: String,
    job: Option<u64>,
    loading: bool,
    failed: bool,
    after: Option<String>,
}

/// Model of [`Model`].
pub struct ViewerModel {
    /// The interval of the timer, in seconds.
    pub timeout: u64,
    /// Whether the timer moves the position on.
    pub timeout_enable: bool,
    /// The buffer: every item seen so far, in the order of arrival.
    pub items: Seq<ItemModel>,
    /// The position in the buffer.
    pub current_index: int,
    /// The path of the listing that is shown.
    pub url: Seq<char>,
    /// The interval of the timer that runs, if one runs.
    pub job: Option<u64>,
    /// Whether a page has been asked for and has not arrived.
    pub loading: bool,
    /// Whether the page that was asked for last failed.
    pub failed: bool,
    /// The cursor of the page that arrived last.
    pub after: Option<Seq<char>>,
}

impl View for Model {
    type V = ViewerModel;

    closed spec fn view(&self) -> ViewerModel {
        ViewerModel {
            timeout: self.timeout,
            timeout_enable: self.timeout_enable,
            items: self.items.deep_view(),
            current_index: self.current_index as int,
            url: self.url@,
            job: self.job,
            loading: self.loading,
            failed: self.failed,
            after: self.after.deep_view(),
        }
    }
}

/// Whether the slideshow rests, waits for a page, or has failed to get one.
#[derive(Clone, Copy, Debug, PartialEq, Eq)]
pub enum Status {
    Idle,
    Loading,
    Failed,
}

/// The largest position that can be held.
pub open spec fn index_limit() -> int {
    i32::MAX as int
}

/// The last position of a buffer of `len` items that can be held.
pub open spec fn last_position(len: int) -> int {
    if len - 1 < index_limit() {
        len - 1
    } else {
        index_limit()
    }
}

/// The position `wanted`, pinned to the ends of a buffer of `len` items. In
/// an empty buffer there is no position, which is written as -1.
pub open spec fn clamp_index(wanted: int, len: int) -> int {
    if len == 0 {
        -1
    } else if wanted < 0 {
        0
    } else if wanted > last_position(len) {
        last_position(len)
    } else {
        wanted
    }
}

impl ViewerModel {
    /// The position lies in the buffer, or just before it where nothing has
    /// been shown yet; the interval of the timer is positive; a timer runs
    /// only at the interval that is set.
    pub open spec fn wf(self) -> bool {
        &&& self.timeout > 0
        &&& -1 <= self.current_index <= index_limit()
        &&& self.current_index < self.items.len() || self.current_index <= 0
        &&& self.job is Some ==> self.job == Some(self.timeout)
    }

    /// The state as a whole.
    pub open spec fn status(self) -> Status {
        if self.loading {
            Status::Loading
        } else if self.failed {
            Status::Failed
        } else {
            Status::Idle
        }
    }

    /// The item at the position, if there is one.
    pub open spec fn current(self) -> Option<ItemModel> {
        if 0 <= self.current_index < self.items.len() {
            Some(self.items[self.current_index])
        } else {
            None
        }
    }

    /// Whether more items are to be asked for: no page is awaited, and fewer
    /// items than the low watermark lie from the position to the end.
    pub open spec fn needs_more(self) -> bool {
        !self.loading && self.items.len() - self.current_index < low_watermark()
    }

    /// The address of the next page: the listing's address with the size of
    /// a page, and with the cursor where a page has arrived before.
    pub open spec fn request_address(self) -> Seq<char> {
        let first = "https://www.reddit.com/"@ + self.url + "/.json?limit="@ + decimal(
            LIMIT as int,
        );
        match self.after {
            Some(after) => first + "&after="@ + after,
            None => first,
        }
    }

    /// What the timer is told when it is set anew.
    pub open spec fn timer_command(self) -> TimerCommand {
        if self.timeout_enable {
            TimerCommand::Restart(self.timeout)
        } else {
            TimerCommand::Cancel
        }
    }

    /// The state after the timer was set anew.
    pub open spec fn refreshed(self) -> ViewerModel {
        ViewerModel {
            job: if self.timeout_enable {
                Some(self.timeout)
            } else {
                None
            },
            ..self
        }
    }

    /// The state after the position was set to `wanted`.
    pub open spec fn at(self, wanted: int) -> ViewerModel {
        ViewerModel { current_index: clamp_index(wanted, self.items.len() as int), ..self }
    }
}

/// The effects of a step that only paints.
pub open spec fn paint() -> EffectsModel {
    EffectsModel {
        render: true,
        timer: TimerCommand::Keep,
        request_load: false,
        fetch: None,
        store: None,
    }
}

/// The step of a move to the position `wanted` by hand: the position is
/// pinned to the buffer, more items are asked for where few are left, and
/// the timer starts anew.
pub open spec fn navigate(m: ViewerModel, wanted: int) -> (ViewerModel, EffectsModel) {
    let moved = m.at(wanted);
    (
        moved.refreshed(),
        EffectsModel { timer: moved.timer_command(), request_load: moved.needs_more(), ..paint() },
    )
}

/// The step of the slideshow: the state after `msg`, and what is to be done
/// outside.
pub open spec fn step(m: ViewerModel, msg: MsgModel) -> (ViewerModel, EffectsModel) {
    match msg {
        MsgModel::TimeoutToggle => {
            let toggled = ViewerModel { timeout_enable: !m.timeout_enable, ..m };
            (
                toggled.refreshed(),
                EffectsModel {
                    timer: toggled.timer_command(),
                    store: Some(
                        (
                            timeout_enabled_key(),
                            if toggled.timeout_enable {
                                "true"@
                            } else {
                                "false"@
                            },
                        ),
                    ),
                    ..paint()
                },
            )
        },
        MsgModel::TimeoutSet(text) => match parsed_u64(text) {
            Some(timeout) => if timeout != m.timeout && timeout > 0 {
                let set = ViewerModel { timeout, ..m };
                (
                    set.refreshed(),
                    EffectsModel {
                        timer: set.timer_command(),
                        store: Some((timeout_key(), decimal(timeout as int))),
                        ..paint()
                    },
                )
            } else {
                (m, paint())
            },
            None => (m, paint()),
        },
        MsgModel::SetIndex(index) => navigate(m, index),
        MsgModel::NextPicture => navigate(m, m.current_index + 1),
        MsgModel::PrevPicture => navigate(m, m.current_index - 1),
        MsgModel::Tick => if m.timeout_enable {
            let moved = m.at(m.current_index + 1);
            (moved, EffectsModel { request_load: moved.needs_more(), ..paint() })
        } else {
            (m, EffectsModel { render: false, ..paint() })
        },
        MsgModel::ItemsLoaded(items, after) => (
            ViewerModel {
                loading: false,
                failed: false,
                after: Some(after),
                items: m.items + items,
                ..m
            },
            paint(),
        ),
        MsgModel::ItemsFailed => (ViewerModel { loading: false, failed: true, ..m }, paint()),
        MsgModel::LoadItems => if m.loading {
            (m, paint())
        } else {
            (
                ViewerModel { loading: true, failed: false, ..m },
                EffectsModel { fetch: Some(m.request_address()), ..paint() },
            )
        },
    }
}

/// What a stored text says of whether the timer runs: the timer runs unless
/// the text spells `false`.
pub open spec fn seeded_enable(stored: Option<Seq<char>>) -> bool {
    match stored {
        Some(text) => match parsed_bool(text) {
            Some(enable) => enable,
            None => true,
        },
        None => true,
    }
}

/// What a stored text says of the interval of the timer: the positive
/// number that it spells, and the default where it spells none.
pub open spec fn seeded_timeout(stored: Option<Seq<char>>) -> u64 {
    match stored {
        Some(text) => match parsed_u64(text) {
            Some(timeout) => if timeout > 0 {
                timeout
            } else {
                DEFAULT_TIMEOUT
            },
            None => DEFAULT_TIMEOUT,
        },
        None => DEFAULT_TIMEOUT,
    }
}

/// The state in which the slideshow of the listing at `url` starts, seeded
/// with what the store of preferences holds.
pub open spec fn initial(
    url: Seq<char>,
    stored_enable: Option<Seq<char>>,
    stored_timeout: Option<Seq<char>>,
) -> ViewerModel {
    ViewerModel {
        timeout: seeded_timeout(stored_timeout),
        timeout_enable: seeded_enable(stored_enable),
        items: Seq::empty(),
        current_index: 0,
        url,
        job: None,
        loading: false,
        failed: false,
        after: None,
    }.refreshed()
}

fn painted() -> (out: Effects)
    ensures
        out.deep_view() == paint(),
{
    Effects { render: true, timer: TimerCommand::Keep, request_load: false, fetch: None, store: None }
}

impl Model {
    /// Starts the slideshow of the listing at `url`. The two texts are what
    /// the store of preferences holds under the two keys, if it holds
    /// anything. The timer is started where it is to run, and the first
    /// page is asked for.
    pub fn create(url: String, stored_enable: Option<String>, stored_timeout: Option<String>) -> (out:
        (Model, Effects))
        ensures
            out.0@ == initial(url@, stored_enable.deep_view(), stored_timeout.deep_view()),
            out.0@.wf(),
            out.1.deep_view() == (EffectsModel {
                timer: out.0@.timer_command(),
                request_load: true,
                ..paint()
            }),
    {
        let timeout_enable = match &stored_enable {
            Some(text) => match parse_bool(text.as_str()) {
                Some(enable) => enable,
                None => true,
            },
            None => true,
        };
        let timeout = match &stored_timeout {
            Some(text) => match parse_u64(text.as_str()) {
                Some(timeout) => if timeout > 0 {
                    timeout
                } else {
                    DEFAULT_TIMEOUT
                },
                None => DEFAULT_TIMEOUT,
            },
            None => DEFAULT_TIMEOUT,
        };
        let mut model = Model {
            timeout,
            timeout_enable,
            items: Vec::new(),
            current_index: 0,
            url,
            job: None,
            loading: false,
            failed: false,
            after: None,
        };
        assert(model.items.deep_view() =~= Seq::<ItemModel>::empty());
        let timer = model.refresh_interval();
        let mut effects = painted();
        effects.timer = timer;
        effects.request_load = true;
        (model, effects)
    }

    /// The interval of the timer, in seconds.
    pub fn timeout(&self) -> (out: u64)
        ensures
            out == self@.timeout,
    {
        self.timeout
    }

    /// Whether the timer moves the position on.
    pub fn timeout_enable(&self) -> (out: bool)
        ensures
            out == self@.timeout_enable,
    {
        self.timeout_enable
    }

    /// The buffer.
    pub fn items(&self) -> (out: &Vec<RedditItem>)
        ensures
            out.deep_view() == self@.items,
    {
        &self.items
    }

    /// The position in the buffer.
    pub fn current_index(&self) -> (out: i32)
        ensures
            out == self@.current_index,
    {
        self.current_index
    }

    /// The path of the listing that is shown.
    pub fn url(&self) -> (out: &String)
        ensures
            out@ == self@.url,
    {
        &self.url
    }

    /// The interval of the timer that runs, if one runs.
    pub fn job(&self) -> (out: Option<u64>)
        ensures
            out == self@.job,
    {
        self.job
    }

    /// Whether a page has been asked for and has not arrived.
    pub fn loading(&self) -> (out: bool)
        ensures
            out == self@.loading,
    {
        self.loading
    }

    /// Whether the page that was asked for last failed.
    pub fn failed(&self) -> (out: bool)
        ensures
            out == self@.failed,
    {
        self.failed
    }

    /// The cursor of the page that arrived last.
    pub fn after(&self) -> (out: &Option<String>)
        ensures
            out.deep_view() == self@.after,
    {
        &self.after
    }

    /// Whether the slideshow rests, waits for a page, or has failed.
    pub fn status(&self) -> (out: Status)
        ensures
            out == self@.status(),
    {
        if self.loading {
            Status::Loading
        } else if self.failed {
            Status::Failed
        } else {
            Status::Idle
        }
    }

    /// The item at the position, if there is one.
    pub fn current_item(&self) -> (out: Option<&RedditItem>)
        ensures
            out.deep_view() == self@.current(),
    {
        if self.current_index >= 0 && (self.current_index as usize) < self.items.len() {
            let item = &self.items[self.current_index as usize];
            assert(self.items.deep_view()[self.current_index as int] == item.deep_view());
            Some(item)
        } else {
            None
        }
    }

    /// The address from which the next page of items is fetched.
    pub fn get_items(&self) -> (out: String)
        ensures
            out@ == self@.request_address(),
    {
        let mut address = "https://www.reddit.com/".to_owned();
        address.append(self.url.as_str());
        address.append("/.json?limit=");
        let limit = decimal_string(LIMIT as u64);
        address.append(limit.as_str());
        if let Some(after) = &self.after {
            address.append("&after=");
            address.append(after.as_str());
        }
        address
    }

    /// Whether more items are to be asked for.
    pub fn check_next_load(&self) -> (out: bool)
        ensures
            out == self@.needs_more(),
    {
        if self.loading {
            return false;
        }
        assert(self.items.deep_view().len() == self.items.len());
        let len = self.items.len();
        if self.current_index < 0 {
            let before: u64 = (-(self.current_index as i64)) as u64;
            before < 16 && (len as u64) < 16 - before
        } else {
            let index = self.current_index as usize;
            index >= len || len - index < LIMIT / 3
        }
    }

    /// Sets the timer anew: the timer that runs is cancelled, and where the
    /// timer is to run, one is started at the interval that is set.
    pub fn refresh_interval(&mut self) -> (out: TimerCommand)
        ensures
            final(self)@ == old(self)@.refreshed(),
            out == old(self)@.timer_command(),
    {
        if self.timeout_enable {
            self.job = Some(self.timeout);
            TimerCommand::Restart(self.timeout)
        } else {
            self.job = None;
            TimerCommand::Cancel
        }
    }

    /// The position `wanted`, pinned to the ends of the buffer.
    pub fn check_bounds(&self, wanted: i64) -> (out: i32)
        ensures
            out == clamp_index(wanted as int, self@.items.len() as int),
    {
        assert(self.items.deep_view().len() == self.items.len());
        let len = self.items.len();
        if len == 0 {
            -1
        } else if wanted < 0 {
            0
        } else if len <= i32::MAX as usize && wanted >= len as i64 {
            (len - 1) as i32
        } else if wanted > i32::MAX as i64 {
            i32::MAX
        } else {
            wanted as i32
        }
    }
}

impl Model {
    fn move_to(&mut self, wanted: i64, by_hand: bool) -> (out: Effects)
        ensures
            by_hand ==> (final(self)@, out.deep_view()) == navigate(old(self)@, wanted as int),
            !by_hand ==> final(self)@ == old(self)@.at(wanted as int) && out.deep_view() == (
            EffectsModel { request_load: final(self)@.needs_more(), ..paint() }),
    {
        self.current_index = self.check_bounds(wanted);
        let mut effects = painted();
        effects.request_load = self.check_next_load();
        if by_hand {
            effects.timer = self.refresh_interval();
        }
        effects
    }

    /// The step of the slideshow: takes in `msg`, and hands back what is to
    /// be done outside. A state that is well formed stays so.
    pub fn update(&mut self, msg: Msg) -> (out: Effects)
        ensures
            (final(self)@, out.deep_view()) == step(old(self)@, msg.deep_view()),
            old(self)@.wf() ==> final(self)@.wf(),
    {
        match msg {
            Msg::TimeoutToggle => {
                self.timeout_enable = !self.timeout_enable;
                let mut effects = painted();
                effects.timer = self.refresh_interval();
                let value = if self.timeout_enable {
                    "true".to_owned()
                } else {
                    "false".to_owned()
                };
                effects.store = Some(StoreRequest { key: "TIMEOUT_ENABLED_KEY".to_owned(), value });
                effects
            },
            Msg::TimeoutSet(text) => {
                let mut effects = painted();
                if let Some(timeout) = parse_u64(text.as_str()) {
                    if timeout != self.timeout && timeout > 0 {
                        self.timeout = timeout;
                        effects.timer = self.refresh_interval();
                        effects.store = Some(
                            StoreRequest {
                                key: "TIMEOUT_KEY".to_owned(),
                                value: decimal_string(timeout),
                            },
                        );
                    }
                }
                effects
            },
            Msg::SetIndex(index) => self.move_to(index as i64, true),
            Msg::NextPicture => self.move_to(self.current_index as i64 + 1, true),
            Msg::PrevPicture => self.move_to(self.current_index as i64 - 1, true),
            Msg::Tick => {
                if !self.timeout_enable {
                    let mut effects = painted();
                    effects.render = false;
                    return effects;
                }
                self.move_to(self.current_index as i64 + 1, false)
            },
            Msg::ItemsLoaded(page) => {
                let (mut items, after) = page;
                let ghost before = self.items.deep_view();
                let ghost more = items.deep_view();
                self.loading = false;
                self.failed = false;
                self.after = Some(after);
                self.items.append(&mut items);
                assert(self.items.deep_view() =~= before + more);
                painted()
            },
            Msg::ItemsFailed => {
                self.loading = false;
                self.failed = true;
                painted()
            },
            Msg::LoadItems => {
                let mut effects = painted();
                if !self.loading {
                    effects.fetch = Some(self.get_items());
                    self.loading = true;
                    self.failed = false;
                }
                effects
            },
        }
    }

    /// The message that the answer to a request for a page comes to: the
    /// items of the page where the request succeeded, the page could be read
    /// and it is of use; else the failure.
    pub fn items_message(success: bool, page: Option<RedditListings>) -> (out: Msg)
        ensures
            out.deep_view() == answer(
                success,
                match page {
                    Some(page) => Some(page.deep_view()),
                    None => None,
                },
            ),
    {
        if !success {
            return Msg::ItemsFailed;
        }
        match page {
            Some(page) => match page.get_items() {
                Some(found) => Msg::ItemsLoaded(found),
                None => Msg::ItemsFailed,
            },
            None => Msg::ItemsFailed,
        }
    }
}

/// The message that the answer to a request for a page comes to.
pub open spec fn answer(success: bool, page: Option<PageModel>) -> MsgModel {
    if !success {
        MsgModel::ItemsFailed
    } else {
        match page {
            Some(page) => match listing(page) {
                Some(found) => MsgModel::ItemsLoaded(found.0, found.1),
                None => MsgModel::ItemsFailed,
            },
            None => MsgModel::ItemsFailed,
        }
    }
}

/// Whether a message moves the position: the three moves by hand, and the
/// firing of the timer.
pub open spec fn moves_position(msg: MsgModel) -> bool {
    msg is SetIndex || msg is NextPicture || msg is PrevPicture || msg is Tick
}

/// One thing that is done to the timer.
pub enum TimerAction {
    /// The timer that runs is cancelled.
    Cancel,
    /// A timer is started.
    Schedule(u64),
}

/// What a command to the timer comes to, one action after the other: a
/// restart cancels before it schedules.
pub open spec fn timer_actions(command: TimerCommand) -> Seq<TimerAction> {
    match command {
        TimerCommand::Keep => seq![],
        TimerCommand::Cancel => seq![TimerAction::Cancel],
        TimerCommand::Restart(seconds) => seq![TimerAction::Cancel, TimerAction::Schedule(seconds)],
    }
}

/// The number of timers that run after `actions`, where `live` ran before.
pub open spec fn live_timers(live: nat, actions: Seq<TimerAction>) -> nat
    decreases actions.len(),
{
    if actions.len() == 0 {
        live
    } else {
        let before = live_timers(live, actions.drop_last());
        match actions.last() {
            TimerAction::Cancel => if before > 0 {
                (before - 1) as nat
            } else {
                0
            },
            TimerAction::Schedule(_) => before + 1,
        }
    }
}

/// The number of timers that the state holds.
pub open spec fn held_timers(m: ViewerModel) -> nat {
    if m.job is Some {
        1
    } else {
        0
    }
}

/// A step keeps the state well formed.
pub proof fn lemma_step_keeps_wf(m: ViewerModel, msg: MsgModel)
    requires
        m.wf(),
    ensures
        step(m, msg).0.wf(),
{
}

/// After a move, by hand or by the timer, the position lies in a buffer
/// that is not empty; a move past either end stays at that end.
pub proof fn lemma_position_stays_in_buffer(m: ViewerModel, msg: MsgModel)
    requires
        m.wf(),
        m.items.len() > 0,
        moves_position(msg),
        msg is Tick ==> m.timeout_enable,
    ensures
        0 <= step(m, msg).0.current_index < m.items.len(),
        step(m, msg).0.items == m.items,
        msg is NextPicture && m.current_index == last_position(m.items.len() as int) ==> step(
            m,
            msg,
        ).0.current_index == m.current_index,
        msg is PrevPicture && m.current_index == 0 ==> step(m, msg).0.current_index == 0,
{
}

/// After a move, more items are asked for exactly where no page is awaited
/// and fewer than sixteen items lie from the new position to the end of the
/// buffer; no other message asks for more.
pub proof fn lemma_low_watermark(m: ViewerModel, msg: MsgModel)
    requires
        m.wf(),
    ensures
        low_watermark() == 16,
        moves_position(msg) && (msg is Tick ==> m.timeout_enable) ==> (step(m, msg).1.request_load
            <==> !m.loading && m.items.len() - step(m, msg).0.current_index < 16),
        !moves_position(msg) ==> !step(m, msg).1.request_load,
        step(m, msg).1.request_load ==> step(m, msg).1.fetch is None,
{
}

/// While a page is awaited none is fetched: the message that loads more
/// changes nothing then. Where none is awaited it fetches one page, from the
/// address that the cursor gives, and the state waits for it.
pub proof fn lemma_one_page_at_a_time(m: ViewerModel)
    ensures
        m.loading ==> step(m, MsgModel::LoadItems) == (m, paint()),
        !m.loading ==> step(m, MsgModel::LoadItems).0.status() == Status::Loading && step(
            m,
            MsgModel::LoadItems,
        ).1.fetch == Some(m.request_address()),
        forall|msg: MsgModel| !(msg is LoadItems) ==> (#[trigger] step(m, msg)).1.fetch is None,
{
}

/// The buffer only grows, at its end: whatever the message, the items that
/// were in the buffer stay at their positions. A page that arrives is put
/// behind them in its own order, and becomes the source of the cursor.
pub proof fn lemma_buffer_only_grows(m: ViewerModel, msg: MsgModel)
    ensures
        m.items.is_prefix_of(step(m, msg).0.items),
        forall|i: int| 0 <= i < m.items.len() ==> step(m, msg).0.items[i] == m.items[i],
        match msg {
            MsgModel::ItemsLoaded(items, after) => step(m, msg).0.items == m.items + items && step(
                m,
                msg,
            ).0.after == Some(after) && step(m, msg).0.status() == Status::Idle,
            _ => step(m, msg).0.items == m.items,
        },
{
}

/// The buffer after two pages have arrived holds what it held, then the
/// items of the first page, then those of the second.
pub proof fn lemma_pages_in_arrival_order(
    m: ViewerModel,
    first: Seq<ItemModel>,
    first_cursor: Seq<char>,
    second: Seq<ItemModel>,
    second_cursor: Seq<char>,
)
    ensures
        ({
            let once = step(m, MsgModel::ItemsLoaded(first, first_cursor)).0;
            let twice = step(once, MsgModel::ItemsLoaded(second, second_cursor)).0;
            &&& twice.items == m.items + first + second
            &&& twice.items.len() == m.items.len() + first.len() + second.len()
            &&& twice.after == Some(second_cursor)
            &&& forall|i: int|
                0 <= i < second.len() ==> twice.items[m.items.len() + first.len() + i] == second[i]
        }),
{
}

/// A failure is kept until the next request: it shows once the page is no
/// longer awaited, and a new request or a page that arrives clears it.
pub proof fn lemma_failure_is_recoverable(m: ViewerModel)
    ensures
        step(m, MsgModel::ItemsFailed).0.status() == Status::Failed,
        step(step(m, MsgModel::ItemsFailed).0, MsgModel::LoadItems).0.status() == Status::Loading,
        step(m, MsgModel::ItemsFailed).0.items == m.items,
{
}

/// The firing of the timer changes nothing while the timer is switched
/// off, and nothing is painted; while it is switched on it moves the
/// position as a step forward by hand does, and leaves the timer alone.
pub proof fn lemma_tick(m: ViewerModel)
    ensures
        !m.timeout_enable ==> step(m, MsgModel::Tick) == (
            m,
            EffectsModel { render: false, ..paint() },
        ),
        m.timeout_enable ==> step(m, MsgModel::Tick).0.current_index == step(
            m,
            MsgModel::NextPicture,
        ).0.current_index && step(m, MsgModel::Tick).1.timer == TimerCommand::Keep,
{
}

/// At most one timer runs. Where the timers that run are those that the
/// state holds, they still are after every action of a step, and never more
/// than one runs: a restart cancels the timer that runs before it starts
/// the next. Every move by hand, and every change of the timer's setting
/// that takes effect, restarts the timer where it is switched on.
pub proof fn lemma_one_timer(m: ViewerModel, msg: MsgModel)
    requires
        m.wf(),
    ensures
        ({
            let actions = timer_actions(step(m, msg).1.timer);
            &&& forall|k: int|
                0 <= k <= actions.len() ==> #[trigger] live_timers(held_timers(m), actions.take(k))
                    <= 1
            &&& live_timers(held_timers(m), actions) == held_timers(step(m, msg).0)
        }),
        (msg is SetIndex || msg is NextPicture || msg is PrevPicture || msg is TimeoutToggle) ==> step(
            m,
            msg,
        ).1.timer == step(m, msg).0.timer_command(),
        msg is TimeoutSet && step(m, msg).0.timeout != m.timeout ==> step(m, msg).1.timer == step(
            m,
            msg,
        ).0.timer_command(),
        step(m, msg).0.timeout_enable ==> (step(m, msg).0.timer_command() == TimerCommand::Restart(
            step(m, msg).0.timeout,
        )),
{
    let command = step(m, msg).1.timer;
    let actions = timer_actions(command);
    let live = held_timers(m);
    assert(actions.take(0) =~= Seq::<TimerAction>::empty());
    assert(live_timers(live, actions.take(0)) == live);
    if actions.len() >= 1 {
        assert(actions.take(1).drop_last() =~= actions.take(0));
        assert(live_timers(live, actions.take(1)) == 0);
    }
    if actions.len() == 2 {
        assert(actions.take(2) =~= actions);
        assert(actions.drop_last() =~= actions.take(1));
        assert(live_timers(live, actions) == 1);
    }
    assert(actions.take(actions.len() as int) =~= actions);
    assert forall|k: int| 0 <= k <= actions.len() implies #[trigger] live_timers(
        live,
        actions.take(k),
    ) <= 1 by {
        if k == 0 {
        } else if k == 1 {
        } else {
            assert(k == 2);
        }
    }
}

} // verus!
