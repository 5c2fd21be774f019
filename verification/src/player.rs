//! The player of one video. A video element does not take up a new source
//! while it stands, so the player takes the element down when the source
//! changes, and puts a new one up in the step after.

use vstd::prelude::*;

verus! {

/// What the player is to play, and the name of its element.
#[derive(Clone, Debug, PartialEq, Eq)]
pub struct PlayerProps {
    pub url: String,
    pub mime: String,
    pub id: String,
}

/// Model of [`PlayerProps`].
pub struct PropsModel {
    pub url: Seq<char>,
    pub mime: Seq<char>,
    pub id: Seq<char>,
}

impl DeepView for PlayerProps {
    type V = PropsModel;

    open spec fn deep_view(&self) -> PropsModel {
        PropsModel { url: self.url@, mime: self.mime@, id: self.id@ }
    }
}

/// What can happen to the player.
#[derive(Clone, Copy, Debug, PartialEq, Eq)]
pub enum Msg {
    /// The element may be put up again.
    Enable,
    /// The video has loaded its first frame.
    OnLoad,
}

/// The state of the player.
pub struct Player {
    props: PlayerProps,
    dirty: bool,
}

/// Model of [`Player`].
pub struct PlayerModel {
    /// What is played.
    pub props: PropsModel,
    /// Whether the element is down, because the source has changed.
    pub dirty: bool,
}

impl View for Player {
    type V = PlayerModel;

    closed spec fn view(&self) -> PlayerModel {
        PlayerModel { props: self.props.deep_view(), dirty: self.dirty }
    }
}

/// What is to be done outside after the player was given what to play.
#[derive(Clone, Copy, Debug, PartialEq, Eq)]
pub struct Change {
    /// Whether the player is to be painted anew.
    pub render: bool,
    /// Whether the message that puts the element up again is to be sent.
    pub enable: bool,
}

/// The state after `msg`, and whether the player is to be painted anew: the
/// element is put up again where it was down, and nothing else changes.
pub open spec fn after_message(m: PlayerModel, msg: Msg) -> (PlayerModel, bool) {
    match msg {
        Msg::Enable => if m.dirty {
            (PlayerModel { dirty: false, ..m }, true)
        } else {
            (m, false)
        },
        Msg::OnLoad => (m, false),
    }
}

/// The state after the player was given `props` to play, and what is to be
/// done outside: where they differ from what is played, the element goes
/// down, and the message that puts it up again is sent unless it is under
/// way already.
pub open spec fn after_change(m: PlayerModel, props: PropsModel) -> (PlayerModel, Change) {
    if m.props != props {
        (PlayerModel { props, dirty: true }, Change { render: true, enable: !m.dirty })
    } else {
        (m, Change { render: false, enable: false })
    }
}

impl Player {
    /// A player of `props`, with its element up.
    pub fn create(props: PlayerProps) -> (out: Player)
        ensures
            out@ == (PlayerModel { props: props.deep_view(), dirty: false }),
    {
        Player { props, dirty: false }
    }

    /// What is played.
    pub fn props(&self) -> (out: &PlayerProps)
        ensures
            out.deep_view() == self@.props,
    {
        &self.props
    }

    /// Whether the video element is to stand.
    pub fn shows_video(&self) -> (out: bool)
        ensures
            out == !self@.dirty,
    {
        !self.dirty
    }

    /// Takes in `msg`, and says whether the player is to be painted anew.
    /// What is done to the video when it has loaded is done outside.
    pub fn update(&mut self, msg: Msg) -> (out: bool)
        ensures
            (final(self)@, out) == after_message(old(self)@, msg),
    {
        match msg {
            Msg::Enable => {
                if self.dirty {
                    self.dirty = false;
                    return true;
                }
            },
            Msg::OnLoad => {},
        }
        false
    }

    /// Gives the player `props` to play.
    pub fn change(&mut self, props: PlayerProps) -> (out: Change)
        ensures
            (final(self)@, out) == after_change(old(self)@, props.deep_view()),
    {
        let same = self.props.url == props.url && self.props.mime == props.mime && self.props.id
            == props.id;
        if !same {
            self.props = props;
            let enable = !self.dirty;
            self.dirty = true;
            Change { render: true, enable }
        } else {
            Change { render: false, enable: false }
        }
    }
}

/// Whenever the source changes the element is taken down, and the next
/// message that enables it puts it up again with the new source.
pub proof fn lemma_new_source_remounts(m: PlayerModel, props: PropsModel)
    requires
        m.props != props,
    ensures
        after_change(m, props).0.dirty,
        after_change(m, props).1.render,
        after_message(after_change(m, props).0, Msg::Enable) == (
            PlayerModel { props, dirty: false },
            true,
        ),
{
}

} // verus!
