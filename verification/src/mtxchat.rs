//! The chat client's session: the values it caches and what they allow.

use vstd::prelude::*;
use vstd::string::{StrSliceExecFns, StringExecFns};
use crate::shell::text::{same_text, spec_until, until_len};

verus! {

/// Names of the values that the client stores.
pub const FILTER_KEY: &'static str = "_filter";

pub const PASSWORD_KEY: &'static str = "password";

pub const ROOM_ID_KEY: &'static str = "_room_id";

pub const ROOM_NAME_KEY: &'static str = "room_name";

pub const ROOM_DOMAIN_KEY: &'static str = "room_domain";

pub const SINCE_KEY: &'static str = "_since";

pub const TOKEN_KEY: &'static str = "_token";

pub const USER_ID_KEY: &'static str = "_user_id";

pub const USER_NAME_KEY: &'static str = "user_name";

pub const USER_DOMAIN_KEY: &'static str = "user_domain";

/// Ids of the messages that the client shows.
pub const CLOCK_NOT_SET_ID: usize = 1;

pub const PDDB_NOT_MOUNTED_ID: usize = 2;

pub const WIFI_NOT_CONNECTED_ID: usize = 3;

pub const MTXCLI_INITIALIZED_ID: usize = 4;

pub const WIFI_CONNECTED_ID: usize = 5;

pub const SET_USER_ID: usize = 6;

pub const SET_PASSWORD_ID: usize = 7;

pub const LOGGED_IN_ID: usize = 8;

pub const LOGIN_FAILED_ID: usize = 9;

pub const SET_ROOM_ID: usize = 10;

pub const ROOMID_FAILED_ID: usize = 11;

pub const FILTER_FAILED_ID: usize = 12;

pub const SET_SERVER_ID: usize = 13;

pub const LOGGING_IN_ID: usize = 14;

pub const LOGGED_OUT_ID: usize = 15;

pub const NOT_CONNECTED_ID: usize = 16;

pub const FAILED_TO_SEND_ID: usize = 17;

pub const PLEASE_LOGIN_ID: usize = 18;

/// Number of times a message is sent before the client gives up.
pub const SEND_RETRIES: usize = 3;

/// The values that the client caches.
pub struct MtxChat {
    pub user_id: Option<String>,
    pub user_name: Option<String>,
    pub user_domain: Option<String>,
    pub token: Option<String>,
    pub logged_in: bool,
    pub room_id: Option<String>,
    pub room_name: Option<String>,
    pub room_domain: Option<String>,
    pub filter: Option<String>,
    pub since: Option<String>,
    pub listening: bool,
    pub new_username: bool,
    pub new_room: bool,
}

/// A stored text, if any, as characters.
pub open spec fn text_of(value: Option<String>) -> Option<Seq<char>> {
    match value {
        Some(s) => Some(s@),
        None => None,
    }
}

/// The session as plain values.
pub struct SessionView {
    pub user_id: Option<Seq<char>>,
    pub user_name: Option<Seq<char>>,
    pub user_domain: Option<Seq<char>>,
    pub token: Option<Seq<char>>,
    pub logged_in: bool,
    pub room_id: Option<Seq<char>>,
    pub room_name: Option<Seq<char>>,
    pub room_domain: Option<Seq<char>>,
    pub filter: Option<Seq<char>>,
    pub since: Option<Seq<char>>,
    pub listening: bool,
    pub new_username: bool,
    pub new_room: bool,
}

impl View for MtxChat {
    type V = SessionView;

    open spec fn view(&self) -> SessionView {
        SessionView {
            user_id: text_of(self.user_id),
            user_name: text_of(self.user_name),
            user_domain: text_of(self.user_domain),
            token: text_of(self.token),
            logged_in: self.logged_in,
            room_id: text_of(self.room_id),
            room_name: text_of(self.room_name),
            room_domain: text_of(self.room_domain),
            filter: text_of(self.filter),
            since: text_of(self.since),
            listening: self.listening,
            new_username: self.new_username,
            new_room: self.new_room,
        }
    }
}

/// A key that the user may not set: one that starts with two underscores.
pub open spec fn spec_protected(key: Seq<char>) -> bool {
    key.len() >= 2 && key[0] == '_' && key[1] == '_'
}

/// The session after `key` was set to `value`, or unset with `None`. Keys
/// that are not cached leave the session as it is.
pub open spec fn spec_cache(
    session: SessionView,
    key: Seq<char>,
    value: Option<Seq<char>>,
) -> SessionView {
    if key == FILTER_KEY@ {
        SessionView { filter: value, ..session }
    } else if key == PASSWORD_KEY@ {
        session
    } else if key == ROOM_ID_KEY@ {
        SessionView { room_id: value, ..session }
    } else if key == ROOM_NAME_KEY@ {
        SessionView { room_name: value, ..session }
    } else if key == ROOM_DOMAIN_KEY@ {
        SessionView { room_domain: value, ..session }
    } else if key == SINCE_KEY@ {
        SessionView { since: value, ..session }
    } else if key == TOKEN_KEY@ {
        SessionView { token: value, ..session }
    } else if key == USER_NAME_KEY@ {
        SessionView { user_name: value, ..session }
    } else if key == USER_DOMAIN_KEY@ {
        SessionView { user_domain: value, ..session }
    } else if key == USER_ID_KEY@ {
        SessionView { user_id: value, ..session }
    } else {
        session
    }
}

/// The keys whose cached value is dropped when they are unset. The room
/// name and the token stay cached.
pub open spec fn spec_unset_clears(key: Seq<char>) -> bool {
    key != ROOM_NAME_KEY@ && key != TOKEN_KEY@
}

/// The address of a room: `#name:domain`.
pub open spec fn spec_alias(name: Seq<char>, domain: Seq<char>) -> Seq<char> {
    seq!['#'] + name + seq![':'] + domain
}

/// What is missing for an action, if anything. Where several things are
/// missing, the first in this order is named.
#[derive(Clone, Copy, Debug, PartialEq, Eq, Structural)]
pub enum Readiness {
    Ready,
    AlreadyDone,
    NotLoggedIn,
    NoToken,
    NoUserId,
    NoUserDomain,
    NoRoomId,
    NoFilter,
    NoRoomAlias,
}

/// The key is protected.
#[derive(Clone, Copy, Debug, PartialEq, Eq, Structural)]
pub struct PermissionDenied;

/// Whether the user may set `key`.
pub fn key_is_protected(key: &str) -> (protected: bool)
    ensures
        protected == spec_protected(key@),
{
    key.unicode_len() >= 2 && key.get_char(0) == '_' && key.get_char(1) == '_'
}

fn owned(value: Option<&str>) -> (copy: Option<String>)
    ensures
        text_of(copy) == match value {
            Some(s) => Some(s@),
            None => None,
        },
{
    match value {
        Some(s) => Some(String::from_str(s)),
        None => None,
    }
}

impl MtxChat {
    /// A session before anything is known: the user's domain is the
    /// default server.
    pub fn new() -> (session: MtxChat)
        ensures
            session@ == (SessionView {
                user_id: None,
                user_name: None,
                user_domain: Some("matrix.org"@),
                token: None,
                logged_in: false,
                room_id: None,
                room_name: None,
                room_domain: None,
                filter: None,
                since: None,
                listening: false,
                new_username: false,
                new_room: false,
            }),
    {
        MtxChat {
            user_id: None,
            user_name: None,
            user_domain: Some(String::from_str("matrix.org")),
            token: None,
            logged_in: false,
            room_id: None,
            room_name: None,
            room_domain: None,
            filter: None,
            since: None,
            listening: false,
            new_username: false,
            new_room: false,
        }
    }

    fn cache(&mut self, key: &str, value: Option<&str>)
        ensures
            final(self)@ == spec_cache(old(self)@, key@, match value {
                Some(s) => Some(s@),
                None => None,
            }),
    {
        if same_text(key, FILTER_KEY) {
            self.filter = owned(value);
        } else if same_text(key, PASSWORD_KEY) {
        } else if same_text(key, ROOM_ID_KEY) {
            self.room_id = owned(value);
        } else if same_text(key, ROOM_NAME_KEY) {
            self.room_name = owned(value);
        } else if same_text(key, ROOM_DOMAIN_KEY) {
            self.room_domain = owned(value);
        } else if same_text(key, SINCE_KEY) {
            self.since = owned(value);
        } else if same_text(key, TOKEN_KEY) {
            self.token = owned(value);
        } else if same_text(key, USER_NAME_KEY) {
            self.user_name = owned(value);
        } else if same_text(key, USER_DOMAIN_KEY) {
            self.user_domain = owned(value);
        } else if same_text(key, USER_ID_KEY) {
            self.user_id = owned(value);
        }
    }

    /// Sets a value. A protected key is refused; any other key may be
    /// stored, and the cached copy of a key that the session knows is
    /// updated.
    pub fn set(&mut self, key: &str, value: &str) -> (result: Result<(), PermissionDenied>)
        ensures
            result is Err <==> spec_protected(key@),
            final(self)@ == if spec_protected(key@) {
                old(self)@
            } else {
                spec_cache(old(self)@, key@, Some(value@))
            },
    {
        if key_is_protected(key) {
            Err(PermissionDenied)
        } else {
            self.cache(key, Some(value));
            Ok(())
        }
    }

    /// Like `set`, but answers with whether it worked.
    pub fn set_debug(&mut self, key: &str, value: &str) -> (done: bool)
        ensures
            done == !spec_protected(key@),
            final(self)@ == if spec_protected(key@) {
                old(self)@
            } else {
                spec_cache(old(self)@, key@, Some(value@))
            },
    {
        match self.set(key, value) {
            Ok(()) => true,
            Err(_) => false,
        }
    }

    /// Unsets a value. A protected key is refused. The cached copy is
    /// dropped, except for the room name and the token.
    pub fn unset(&mut self, key: &str) -> (result: Result<(), PermissionDenied>)
        ensures
            result is Err <==> spec_protected(key@),
            final(self)@ == if !spec_protected(key@) && spec_unset_clears(key@) {
                spec_cache(old(self)@, key@, None)
            } else {
                old(self)@
            },
    {
        if key_is_protected(key) {
            Err(PermissionDenied)
        } else {
            if !same_text(key, ROOM_NAME_KEY) && !same_text(key, TOKEN_KEY) {
                self.cache(key, None);
            }
            Ok(())
        }
    }

    /// Like `unset`, but answers with whether it worked.
    pub fn unset_debug(&mut self, key: &str) -> (done: bool)
        ensures
            done == !spec_protected(key@),
            final(self)@ == if !spec_protected(key@) && spec_unset_clears(key@) {
                spec_cache(old(self)@, key@, None)
            } else {
                old(self)@
            },
    {
        match self.unset(key) {
            Ok(()) => true,
            Err(_) => false,
        }
    }

    /// Forgets the token from the session's point of view: the stored
    /// token is unset, which leaves the cached copy.
    pub fn logout(&mut self)
        ensures
            final(self)@ == old(self)@,
    {
        proof {
            reveal_strlit("_token");
        }
        self.unset_debug(TOKEN_KEY);
    }

    /// The address of the room, where its name and its domain are known.
    pub fn room_alias(&self) -> (alias: Option<String>)
        ensures
            text_of(alias) == match (self@.room_name, self@.room_domain) {
                (Some(name), Some(domain)) => Some(spec_alias(name, domain)),
                _ => None,
            },
    {
        match (&self.room_name, &self.room_domain) {
            (Some(room_name), Some(room_domain)) => {
                proof {
                    reveal_strlit("#");
                    reveal_strlit(":");
                }
                let mut room_alias = String::from_str("#");
                room_alias.append(room_name.as_str());
                room_alias.append(":");
                room_alias.append(room_domain.as_str());
                assert(room_alias@ =~= spec_alias(room_name@, room_domain@));
                Some(room_alias)
            },
            _ => None,
        }
    }

    /// Whether a filter has to be fetched, and whether it can be.
    pub fn get_filter(&self) -> (readiness: Readiness)
        ensures
            readiness == if self@.filter is Some {
                Readiness::AlreadyDone
            } else if !self@.logged_in {
                Readiness::NotLoggedIn
            } else if self@.token is None {
                Readiness::NoToken
            } else if self@.user_id is None {
                Readiness::NoUserId
            } else if self@.user_domain is None {
                Readiness::NoUserDomain
            } else if self@.room_id is None {
                Readiness::NoRoomId
            } else {
                Readiness::Ready
            },
    {
        if self.filter.is_some() {
            Readiness::AlreadyDone
        } else if !self.logged_in {
            Readiness::NotLoggedIn
        } else if self.token.is_none() {
            Readiness::NoToken
        } else if self.user_id.is_none() {
            Readiness::NoUserId
        } else if self.user_domain.is_none() {
            Readiness::NoUserDomain
        } else if self.room_id.is_none() {
            Readiness::NoRoomId
        } else {
            Readiness::Ready
        }
    }

    /// Starts listening where everything needed is known and nobody
    /// listens yet.
    pub fn listen(&mut self) -> (readiness: Readiness)
        ensures
            readiness == if old(self)@.listening {
                Readiness::AlreadyDone
            } else if !old(self)@.logged_in {
                Readiness::NotLoggedIn
            } else if old(self)@.token is None {
                Readiness::NoToken
            } else if old(self)@.room_id is None {
                Readiness::NoRoomId
            } else if old(self)@.filter is None {
                Readiness::NoFilter
            } else if old(self)@.room_name is None || old(self)@.room_domain is None {
                Readiness::NoRoomAlias
            } else {
                Readiness::Ready
            },
            final(self)@ == (SessionView {
                listening: old(self)@.listening || readiness is Ready,
                ..old(self)@
            }),
    {
        if self.listening {
            Readiness::AlreadyDone
        } else if !self.logged_in {
            Readiness::NotLoggedIn
        } else if self.token.is_none() {
            Readiness::NoToken
        } else if self.room_id.is_none() {
            Readiness::NoRoomId
        } else if self.filter.is_none() {
            Readiness::NoFilter
        } else if self.room_name.is_none() || self.room_domain.is_none() {
            Readiness::NoRoomAlias
        } else {
            self.listening = true;
            Readiness::Ready
        }
    }

    /// Notes that listening has ended, with the position to go on from.
    /// Returns whether to listen again: only where a position was given
    /// and the session is logged in.
    pub fn listen_over(&mut self, since: &str) -> (again: bool)
        ensures
            again == (since@.len() > 0 && old(self)@.logged_in),
            final(self)@ == (SessionView {
                listening: false,
                since: if since@.len() > 0 {
                    Some(since@)
                } else {
                    old(self)@.since
                },
                ..old(self)@
            }),
    {
        self.listening = false;
        if since.unicode_len() > 0 {
            proof {
                reveal_strlit("_since");
                reveal_strlit("_filter");
                reveal_strlit("password");
                reveal_strlit("_room_id");
                reveal_strlit("room_name");
                reveal_strlit("room_domain");
            }
            self.set_debug(SINCE_KEY, since);
            self.logged_in
        } else {
            false
        }
    }

    /// Whether a message can be posted.
    pub fn post(&self) -> (readiness: Readiness)
        ensures
            readiness == if !self@.logged_in {
                Readiness::NotLoggedIn
            } else if self@.token is None {
                Readiness::NoToken
            } else if self@.user_domain is None {
                Readiness::NoUserDomain
            } else if self@.room_id is None {
                Readiness::NoRoomId
            } else {
                Readiness::Ready
            },
    {
        if !self.logged_in {
            Readiness::NotLoggedIn
        } else if self.token.is_none() {
            Readiness::NoToken
        } else if self.user_domain.is_none() {
            Readiness::NoUserDomain
        } else if self.room_id.is_none() {
            Readiness::NoRoomId
        } else {
            Readiness::Ready
        }
    }

    /// Whether the id of the room can be looked up.
    pub fn get_room_id(&self) -> (readiness: Readiness)
        ensures
            readiness == if !self@.logged_in {
                Readiness::NotLoggedIn
            } else if self@.token is None {
                Readiness::NoToken
            } else if self@.user_domain is None {
                Readiness::NoUserDomain
            } else if self@.room_name is None || self@.room_domain is None {
                Readiness::NoRoomAlias
            } else {
                Readiness::Ready
            },
    {
        if !self.logged_in {
            Readiness::NotLoggedIn
        } else if self.token.is_none() {
            Readiness::NoToken
        } else if self.user_domain.is_none() {
            Readiness::NoUserDomain
        } else if self.room_name.is_none() || self.room_domain.is_none() {
            Readiness::NoRoomAlias
        } else {
            Readiness::Ready
        }
    }
}

/// Name and domain in a user id of the form `@name:domain`. The name lies
/// between the first `@`, or else the start, and the first colon; the
/// domain follows the colon. `None` where the id has no colon or where the
/// first `@` stands behind it.
pub open spec fn spec_split_user_id(user_id: Seq<char>) -> Option<(Seq<char>, Seq<char>)> {
    let at = spec_until(user_id, '@').len();
    let colon = spec_until(user_id, ':').len();
    let start = if at < user_id.len() {
        at + 1
    } else {
        0
    };
    if colon < user_id.len() && start <= colon {
        Some((user_id.subrange(start as int, colon as int), user_id.skip(colon as int + 1)))
    } else {
        None
    }
}

/// Splits a user id into name and domain.
pub fn split_user_id(user_id: &str) -> (parts: Option<(String, String)>)
    ensures
        match parts {
            Some((name, domain)) => spec_split_user_id(user_id@) == Some((name@, domain@)),
            None => spec_split_user_id(user_id@).is_none(),
        },
{
    let total = user_id.unicode_len();
    assert(user_id@.skip(0) =~= user_id@);
    let at = until_len(user_id, 0, '@');
    let colon = until_len(user_id, 0, ':');
    let start = if at < total {
        at + 1
    } else {
        0
    };
    if colon < total && start <= colon {
        let name = String::from_str(user_id.substring_char(start, colon));
        let domain = String::from_str(user_id.substring_char(colon + 1, total));
        assert(user_id@.subrange(colon + 1, total as int) =~= user_id@.skip(colon + 1));
        Some((name, domain))
    } else {
        None
    }
}

/// The number of a transaction: a random word plus the nanoseconds of the
/// clock, wrapping round.
pub fn gen_txn_id(random: u32, nanos: u32) -> (id: u32)
    ensures
        id == vstd::wrapping::u32_specs::wrapping_add(random, nanos),
{
    random.wrapping_add(nanos)
}

} // verus!
