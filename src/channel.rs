use vstd::prelude::*;

verus! {

/// Whether a channel is streaming, as far as the last status check could tell.
#[derive(Clone, Copy, PartialEq, Eq, Structural, Debug)]
pub enum Status {
    Awaiting,
    Online,
    Offline,
    Unknown,
}

/// The text shown beside a channel for each status.
pub open spec fn status_message(status: Status) -> Seq<char> {
    match status {
        Status::Awaiting => "...  "@,
        Status::Online => "online"@,
        Status::Offline => "offline"@,
        Status::Unknown => "unknown"@,
    }
}

impl Default for Status {
    fn default() -> (r: Self)
        ensures
            r == Status::Awaiting,
    {
        Status::Awaiting
    }
}

impl Status {
    pub fn message(&self) -> (r: &'static str)
        ensures
            r@ == status_message(*self),
    {
        match *self {
            Status::Awaiting => "...  ",
            Status::Online => "online",
            Status::Offline => "offline",
            Status::Unknown => "unknown",
        }
    }
}

/// A streaming channel: the name shown for it, its handle on the streaming
/// site, its last known status and the game it streams, when known.
pub struct Channel {
    pub friendly_name: String,
    pub handle: String,
    pub status: Status,
    pub game: Option<String>,
}

pub fn copy_optional_text(text: &Option<String>) -> (r: Option<String>)
    ensures
        r == *text,
{
    match text {
        Some(t) => Some(t.clone()),
        None => None,
    }
}

impl Clone for Channel {
    fn clone(&self) -> (r: Self)
        ensures
            r == *self,
    {
        Channel {
            friendly_name: self.friendly_name.clone(),
            handle: self.handle.clone(),
            status: self.status,
            game: copy_optional_text(&self.game),
        }
    }
}

impl Channel {
    /// A channel whose status has not been checked yet.
    pub fn new(friendly_name: String, handle: String, game: Option<String>) -> (r: Self)
        ensures
            r.friendly_name == friendly_name,
            r.handle == handle,
            r.status == Status::Awaiting,
            r.game == game,
    {
        Channel { friendly_name, handle, status: Status::Awaiting, game }
    }
}

/// A copy of a list of channels.
pub fn copy_channels(channels: &Vec<Channel>) -> (r: Vec<Channel>)
    ensures
        r@ == channels@,
{
    let mut r: Vec<Channel> = Vec::new();
    let mut i: usize = 0;
    while i < channels.len()
        invariant
            i <= channels.len(),
            r@ == channels@.take(i as int),
        decreases channels.len() - i,
    {
        r.push(channels[i].clone());
        i = i + 1;
        assert(r@ =~= channels@.take(i as int));
    }
    assert(channels@.take(channels.len() as int) =~= channels@);
    r
}

/// A copy of a list of strings.
pub fn copy_strings(strings: &Vec<String>) -> (r: Vec<String>)
    ensures
        r@ == strings@,
{
    let mut r: Vec<String> = Vec::new();
    let mut i: usize = 0;
    while i < strings.len()
        invariant
            i <= strings.len(),
            r@ == strings@.take(i as int),
        decreases strings.len() - i,
    {
        r.push(strings[i].clone());
        i = i + 1;
        assert(r@ =~= strings@.take(i as int));
    }
    assert(strings@.take(strings.len() as int) =~= strings@);
    r
}

/// A copy of a sequence of characters.
pub fn copy_chars(chars: &Vec<char>) -> (r: Vec<char>)
    ensures
        r@ == chars@,
{
    let mut r: Vec<char> = Vec::new();
    let mut i: usize = 0;
    while i < chars.len()
        invariant
            i <= chars.len(),
            r@ == chars@.take(i as int),
        decreases chars.len() - i,
    {
        r.push(chars[i]);
        i = i + 1;
        assert(r@ =~= chars@.take(i as int));
    }
    assert(chars@.take(chars.len() as int) =~= chars@);
    r
}

/// The channels of a list whose status is still awaited.
pub open spec fn awaiting_channels(channels: Seq<Channel>) -> Seq<Channel> {
    channels.filter(|c: Channel| c.status == Status::Awaiting)
}

/// The index of the first channel with the given handle: the channel that a
/// status result for that handle updates.
pub open spec fn status_target(channels: Seq<Channel>, handle: Seq<char>) -> Option<int>
    decreases channels.len(),
{
    if channels.len() == 0 {
        None
    } else if channels[0].handle@ == handle {
        Some(0)
    } else {
        match status_target(channels.drop_first(), handle) {
            Some(i) => Some(i + 1),
            None => None,
        }
    }
}

/// The channels after a status result for `handle` is applied, as an update
/// keyed by handle: the channel with that handle takes the status and the
/// game; a result for a handle that no channel has changes nothing.
pub open spec fn with_status(
    channels: Seq<Channel>,
    handle: Seq<char>,
    status: Status,
    game: Option<String>,
) -> Seq<Channel> {
    match status_target(channels, handle) {
        Some(i) => channels.update(i, Channel { status: status, game: game, ..channels[i] }),
        None => channels,
    }
}

pub proof fn lemma_status_target_bounds(channels: Seq<Channel>, handle: Seq<char>)
    ensures
        match status_target(channels, handle) {
            Some(i) => 0 <= i < channels.len() && channels[i].handle@ == handle && forall|j: int|
                0 <= j < i ==> #[trigger] channels[j].handle@ != handle,
            None => forall|j: int| 0 <= j < channels.len() ==> #[trigger] channels[j].handle@ != handle,
        },
    decreases channels.len(),
{
    if channels.len() > 0 {
        lemma_status_target_bounds(channels.drop_first(), handle);
        assert forall|j: int| 1 <= j < channels.len() implies channels[j] == channels.drop_first()[j
            - 1] by {}
    }
}

/// Applies one status result to a list of channels.
pub fn apply_status(
    channels: &mut Vec<Channel>,
    handle: &String,
    status: Status,
    game: Option<String>,
)
    ensures
        final(channels)@ == with_status(old(channels)@, handle@, status, game),
{
    proof {
        lemma_status_target_bounds(channels@, handle@);
    }
    let mut i: usize = 0;
    while i < channels.len()
        invariant
            i <= channels.len(),
            channels@ == old(channels)@,
            forall|j: int| 0 <= j < i ==> #[trigger] channels@[j].handle@ != handle@,
        decreases channels.len() - i,
    {
        if channels[i].handle == *handle {
            let mut updated = channels[i].clone();
            updated.status = status;
            updated.game = game;
            proof {
                lemma_status_target_bounds(old(channels)@, handle@);
                let target = status_target(old(channels)@, handle@);
                if let Some(k) = target {
                    assert(!(k < i));
                }
                assert(target == Some(i as int));
            }
            channels.set(i, updated);
            return;
        }
        i = i + 1;
    }
}

/// What the streaming site answered when asked for a channel's stream.
pub enum StreamReply {
    /// The question could not be asked or answered.
    Failed,
    /// The channel streams nothing.
    NotLive,
    /// The channel streams this game.
    Live(String),
}

/// The status and game of a channel, from the site's reply on its stream.
pub fn status_of_reply(reply: StreamReply) -> (r: (Status, Option<String>))
    ensures
        match reply {
            StreamReply::Failed => r == (Status::Unknown, None::<String>),
            StreamReply::NotLive => r == (Status::Offline, None::<String>),
            StreamReply::Live(game) => r == (Status::Online, Some(game)),
        },
{
    match reply {
        StreamReply::Failed => (Status::Unknown, None),
        StreamReply::NotLive => (Status::Offline, None),
        StreamReply::Live(game) => (Status::Online, Some(game)),
    }
}

/// A secret value that is shown only when asked for.
pub struct Secret {
    secret_string: String,
}

pub trait Expose {
    spec fn exposed(&self) -> Seq<char>;

    fn expose_value(&self) -> (r: &str)
        ensures
            r@ == self.exposed(),
    ;
}

impl Secret {
    pub fn new(secret_string: String) -> (r: Self)
        ensures
            r.exposed() == secret_string@,
    {
        Secret { secret_string }
    }
}

impl Expose for Secret {
    closed spec fn exposed(&self) -> Seq<char> {
        self.secret_string@
    }

    fn expose_value(&self) -> (r: &str) {
        self.secret_string.as_str()
    }
}

impl Clone for Secret {
    fn clone(&self) -> (r: Self)
        ensures
            r == *self,
    {
        Secret { secret_string: self.secret_string.clone() }
    }
}

/// The credentials of the streaming site's account that the checks run under.
pub struct Account {
    pub username: String,
    pub user_id: String,
    pub client_id: Secret,
    pub client_secret: Secret,
    pub user_access_token: Secret,
    pub refresh_token: Secret,
    pub redirect_url_port: u16,
}

impl Account {
    pub fn access_token(&self) -> (r: Secret)
        ensures
            r == self.user_access_token,
    {
        self.user_access_token.clone()
    }
}

impl Clone for Account {
    fn clone(&self) -> (r: Self)
        ensures
            r == *self,
    {
        Account {
            username: self.username.clone(),
            user_id: self.user_id.clone(),
            client_id: self.client_id.clone(),
            client_secret: self.client_secret.clone(),
            user_access_token: self.user_access_token.clone(),
            refresh_token: self.refresh_token.clone(),
            redirect_url_port: self.redirect_url_port,
        }
    }
}

} // verus!
