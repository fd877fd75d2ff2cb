//! What a connection knows of its client: the startup parameters and the
//! session that authentication fills in.

use vstd::hash_map::StringHashMap;
use vstd::prelude::*;

verus! {

/// The named parameters of a startup packet.
pub struct Parameters {
    map: StringHashMap<String>,
}

impl View for Parameters {
    type V = Map<Seq<char>, Seq<char>>;

    closed spec fn view(&self) -> Map<Seq<char>, Seq<char>> {
        self.map@.map_values(|value: String| value@)
    }
}

impl Parameters {
    pub fn new() -> (parameters: Self)
        ensures
            parameters@ == Map::<Seq<char>, Seq<char>>::empty(),
    {
        let parameters = Parameters { map: StringHashMap::new() };
        assert(parameters@ =~= Map::<Seq<char>, Seq<char>>::empty());
        parameters
    }

    /// Sets `name` to `value`, over whatever it was set to before.
    pub fn insert(&mut self, name: String, value: String)
        ensures
            final(self)@ == old(self)@.insert(name@, value@),
    {
        self.map.insert(name, value);
        assert(self@ =~= old(self)@.insert(name@, value@));
    }

    pub fn contains_key(&self, name: &str) -> (found: bool)
        ensures
            found == self@.contains_key(name@),
    {
        self.map.contains_key(name)
    }

    pub fn get(&self, name: &str) -> (value: Option<&String>)
        ensures
            match value {
                Some(text) => self@.contains_key(name@) && text@ == self@[name@],
                None => !self@.contains_key(name@),
            },
    {
        self.map.get(name)
    }
}

/// What the authentication service says of a user it knows: the context
/// to work under, and the password to expect, if it expects one.
pub struct AuthenticateResponse<A> {
    pub context: A,
    pub password: Option<String>,
}

/// The part of the session that a connection reads and writes.
pub struct Session<A> {
    pub connection_id: u32,
    pub user: Option<String>,
    pub auth_context: Option<A>,
}

pub struct SessionView<A> {
    pub connection_id: u32,
    pub user: Option<Seq<char>>,
    pub auth_context: Option<A>,
}

impl<A> View for Session<A> {
    type V = SessionView<A>;

    open spec fn view(&self) -> SessionView<A> {
        SessionView {
            connection_id: self.connection_id,
            user: match self.user {
                Some(name) => Some(name@),
                None => None,
            },
            auth_context: self.auth_context,
        }
    }
}

impl<A> Session<A> {
    /// A session that nobody has authenticated on yet.
    pub fn new(connection_id: u32) -> (session: Self)
        ensures
            session@ == (SessionView::<A> { connection_id, user: None, auth_context: None }),
    {
        Session { connection_id, user: None, auth_context: None }
    }

    pub fn set_user(&mut self, user: Option<String>)
        ensures
            final(self).user == user,
            final(self).connection_id == old(self).connection_id,
            final(self).auth_context == old(self).auth_context,
    {
        self.user = user;
    }

    pub fn set_auth_context(&mut self, auth_context: Option<A>)
        ensures
            final(self).auth_context == auth_context,
            final(self).connection_id == old(self).connection_id,
            final(self).user == old(self).user,
    {
        self.auth_context = auth_context;
    }
}

} // verus!
