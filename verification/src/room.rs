//! The server's registry of rooms, keyed by their codes.

use vstd::prelude::*;
use crate::model::{PlayerStatus, Seconds, UserMeta, UserState, VideoMeta};
use crate::util::{generate_random_string, is_code_char};

verus! {

/// Length of a generated room code.
pub const ROOM_CODE_LEN: usize = 6;

/// How many fresh codes `new_room` draws before giving up.
pub const ROOM_CODE_TRIES: usize = 5;

/// A member of a room as the server tracks it: what others know about the
/// member, and when (milliseconds on the server's clock) somebody last sent
/// the member a call request.
#[derive(Debug)]
pub struct User {
    pub meta: UserMeta,
    pub last_chat_request: Option<u64>,
}

impl User {
    /// An identical copy.
    pub fn copy(&self) -> (r: User)
        ensures
            r == *self,
    {
        User { meta: self.meta.copy(), last_chat_request: self.last_chat_request }
    }
}

/// The members of a room, the first being its host, and the room's playback
/// status.
#[derive(Debug)]
pub struct Room {
    pub users: Vec<User>,
    pub player_status: PlayerStatus,
}

/// The status a room starts with: paused at position zero (the bit pattern
/// of `0.0`).
pub open spec fn initial_player_status() -> PlayerStatus {
    PlayerStatus::Paused(0)
}

/// `room` is a freshly opened room whose only member is `user`.
pub open spec fn is_new_room(room: Room, user: User) -> bool {
    &&& room.users@ == seq![user]
    &&& room.player_status == initial_player_status()
}

impl Room {
    /// Opens a room with `user` as its only member.
    pub fn new(user: User) -> (r: Room)
        ensures
            is_new_room(r, user),
    {
        let mut users: Vec<User> = Vec::new();
        users.push(user);
        Room { users, player_status: PlayerStatus::Paused(0) }
    }
}

/// A room code: six characters, each an ASCII digit or lower-case letter.
pub open spec fn is_room_code(s: Seq<char>) -> bool {
    &&& s.len() == ROOM_CODE_LEN
    &&& forall|i: int| 0 <= i < s.len() ==> is_code_char(#[trigger] s[i])
}

/// Why the registry refused a request.
#[derive(Debug, Clone, Copy, PartialEq, Eq, Structural)]
pub enum RoomProviderError {
    KeyGenerationFailed,
    RoomDoesntExist,
}

impl RoomProviderError {
    /// The error's text.
    pub fn message(&self) -> (r: String)
        ensures
            r@ == spec_provider_error_message(*self),
    {
        match self {
            RoomProviderError::KeyGenerationFailed => String::from_str("cannot generate new key"),
            RoomProviderError::RoomDoesntExist => String::from_str("given room does not exist"),
        }
    }
}

/// The text of a registry error.
pub open spec fn spec_provider_error_message(e: RoomProviderError) -> Seq<char> {
    match e {
        RoomProviderError::KeyGenerationFailed => "cannot generate new key"@,
        RoomProviderError::RoomDoesntExist => "given room does not exist"@,
    }
}

/// A room together with its code.
#[derive(Debug)]
pub struct RoomEntry {
    pub id: String,
    pub room: Room,
}

/// Some entry of `s` carries the code `k`.
pub open spec fn has_key(s: Seq<RoomEntry>, k: Seq<char>) -> bool {
    exists|i: int| 0 <= i < s.len() && (#[trigger] s[i]).id@ == k
}

/// No two entries of `s` carry the same code.
pub open spec fn keys_distinct(s: Seq<RoomEntry>) -> bool {
    forall|i: int, j: int|
        0 <= i < s.len() && 0 <= j < s.len() && i != j ==> (#[trigger] s[i]).id@ != (#[trigger] s[j]).id@
}

/// The rooms of `s`, by code.
pub open spec fn entries_map(s: Seq<RoomEntry>) -> Map<Seq<char>, Room> {
    Map::new(
        |k: Seq<char>| has_key(s, k),
        |k: Seq<char>| s[choose|i: int| 0 <= i < s.len() && (#[trigger] s[i]).id@ == k].room,
    )
}

proof fn lemma_entries_map_at(s: Seq<RoomEntry>, i: int)
    requires
        keys_distinct(s),
        0 <= i < s.len(),
    ensures
        entries_map(s).dom().contains(s[i].id@),
        entries_map(s)[s[i].id@] == s[i].room,
{
    let k = s[i].id@;
    assert(has_key(s, k));
    let j = choose|j: int| 0 <= j < s.len() && (#[trigger] s[j]).id@ == k;
    assert(j == i);
}

proof fn lemma_entries_map_update(s: Seq<RoomEntry>, i: int, e: RoomEntry)
    requires
        keys_distinct(s),
        0 <= i < s.len(),
        e.id@ == s[i].id@,
    ensures
        keys_distinct(s.update(i, e)),
        entries_map(s.update(i, e)) == entries_map(s).insert(e.id@, e.room),
{
    let t = s.update(i, e);
    assert(keys_distinct(t)) by {
        assert forall|a: int, b: int|
            0 <= a < t.len() && 0 <= b < t.len() && a != b implies (#[trigger] t[a]).id@ != (#[trigger] t[b]).id@ by {
            assert(s[a].id@ != s[b].id@);
        }
    }
    let m1 = entries_map(t);
    let m2 = entries_map(s).insert(e.id@, e.room);
    assert forall|k: Seq<char>| m1.dom().contains(k) <==> m2.dom().contains(k) by {
        if has_key(t, k) {
            let j = choose|j: int| 0 <= j < t.len() && (#[trigger] t[j]).id@ == k;
            if j != i {
                assert(s[j].id@ == k);
            }
        }
        if has_key(s, k) {
            let j = choose|j: int| 0 <= j < s.len() && (#[trigger] s[j]).id@ == k;
            if j != i {
                assert(t[j].id@ == k);
            } else {
                assert(t[i].id@ == k);
            }
        }
        if k == e.id@ {
            assert(t[i].id@ == k);
        }
    }
    assert forall|k: Seq<char>| m1.dom().contains(k) implies m1[k] == m2[k] by {
        let j = choose|j: int| 0 <= j < t.len() && (#[trigger] t[j]).id@ == k;
        lemma_entries_map_at(t, j);
        if j != i {
            lemma_entries_map_at(s, j);
        }
    }
    assert(m1 =~= m2);
}

proof fn lemma_entries_map_push(s: Seq<RoomEntry>, e: RoomEntry)
    requires
        keys_distinct(s),
        !has_key(s, e.id@),
    ensures
        keys_distinct(s.push(e)),
        entries_map(s.push(e)) == entries_map(s).insert(e.id@, e.room),
{
    let t = s.push(e);
    let n = s.len() as int;
    assert(keys_distinct(t)) by {
        assert forall|a: int, b: int|
            0 <= a < t.len() && 0 <= b < t.len() && a != b implies (#[trigger] t[a]).id@ != (#[trigger] t[b]).id@ by {
            if a == n {
                assert(t[b] == s[b]);
            } else if b == n {
                assert(t[a] == s[a]);
            } else {
                assert(s[a].id@ != s[b].id@);
            }
        }
    }
    let m1 = entries_map(t);
    let m2 = entries_map(s).insert(e.id@, e.room);
    assert forall|k: Seq<char>| m1.dom().contains(k) <==> m2.dom().contains(k) by {
        if has_key(t, k) {
            let j = choose|j: int| 0 <= j < t.len() && (#[trigger] t[j]).id@ == k;
            if j != n {
                assert(s[j].id@ == k);
            }
        }
        if has_key(s, k) {
            let j = choose|j: int| 0 <= j < s.len() && (#[trigger] s[j]).id@ == k;
            assert(t[j].id@ == k);
        }
        if k == e.id@ {
            assert(t[n].id@ == k);
        }
    }
    assert forall|k: Seq<char>| m1.dom().contains(k) implies m1[k] == m2[k] by {
        let j = choose|j: int| 0 <= j < t.len() && (#[trigger] t[j]).id@ == k;
        lemma_entries_map_at(t, j);
        if j != n {
            lemma_entries_map_at(s, j);
        }
    }
    assert(m1 =~= m2);
}

proof fn lemma_entries_map_remove(s: Seq<RoomEntry>, i: int)
    requires
        keys_distinct(s),
        0 <= i < s.len(),
    ensures
        keys_distinct(s.remove(i)),
        entries_map(s.remove(i)) == entries_map(s).remove(s[i].id@),
{
    let t = s.remove(i);
    let key = s[i].id@;
    assert forall|a: int| 0 <= a < t.len() implies #[trigger] t[a] == s[if a < i { a } else { a + 1 }] by {}
    assert(keys_distinct(t)) by {
        assert forall|a: int, b: int|
            0 <= a < t.len() && 0 <= b < t.len() && a != b implies (#[trigger] t[a]).id@ != (#[trigger] t[b]).id@ by {
            let a1 = if a < i { a } else { a + 1 };
            let b1 = if b < i { b } else { b + 1 };
            assert(s[a1].id@ != s[b1].id@);
        }
    }
    let m1 = entries_map(t);
    let m2 = entries_map(s).remove(key);
    assert forall|k: Seq<char>| m1.dom().contains(k) <==> m2.dom().contains(k) by {
        if has_key(t, k) {
            let j = choose|j: int| 0 <= j < t.len() && (#[trigger] t[j]).id@ == k;
            let j1 = if j < i { j } else { j + 1 };
            assert(s[j1].id@ == k);
            assert(s[j1].id@ != key);
        }
        if has_key(s, k) && k != key {
            let j = choose|j: int| 0 <= j < s.len() && (#[trigger] s[j]).id@ == k;
            assert(j != i);
            let j0 = if j < i { j } else { j - 1 };
            assert(t[j0].id@ == k);
        }
    }
    assert forall|k: Seq<char>| m1.dom().contains(k) implies m1[k] == m2[k] by {
        let j = choose|j: int| 0 <= j < t.len() && (#[trigger] t[j]).id@ == k;
        lemma_entries_map_at(t, j);
        let j1 = if j < i { j } else { j + 1 };
        lemma_entries_map_at(s, j1);
    }
    assert(m1 =~= m2);
}

/// The server's rooms. Codes are unique and no room is ever left without
/// members.
pub struct RoomProvider {
    rooms: Vec<RoomEntry>,
}

impl View for RoomProvider {
    type V = Map<Seq<char>, Room>;

    closed spec fn view(&self) -> Map<Seq<char>, Room> {
        entries_map(self.rooms@)
    }
}

impl RoomProvider {
    /// The registry's invariant: codes are distinct and every room has at
    /// least one member.
    pub closed spec fn wf(&self) -> bool {
        &&& keys_distinct(self.rooms@)
        &&& forall|i: int| 0 <= i < self.rooms@.len() ==> (#[trigger] self.rooms@[i]).room.users@.len() > 0
    }

    /// Every room the registry holds has at least one member.
    pub proof fn lemma_rooms_nonempty(&self, k: Seq<char>)
        requires
            self.wf(),
            self@.dom().contains(k),
        ensures
            self@[k].users@.len() > 0,
    {
        let i = choose|i: int| 0 <= i < self.rooms@.len() && (#[trigger] self.rooms@[i]).id@ == k;
        lemma_entries_map_at(self.rooms@, i);
    }

    /// The registry holds finitely many rooms.
    pub proof fn lemma_dom_finite(&self)
        ensures
            self@.dom().finite(),
    {
        let keys = self.rooms@.map_values(|e: RoomEntry| e.id@);
        assert forall|k: Seq<char>| self@.dom().contains(k) <==> keys.to_set().contains(k) by {
            if self@.dom().contains(k) {
                let i = choose|i: int| 0 <= i < self.rooms@.len() && (#[trigger] self.rooms@[i]).id@ == k;
                assert(keys[i] == k);
            }
            if keys.to_set().contains(k) {
                let i = choose|i: int| 0 <= i < keys.len() && keys[i] == k;
                assert(self.rooms@[i].id@ == k);
            }
        }
        assert(self@.dom() =~= keys.to_set());
        vstd::seq_lib::seq_to_set_is_finite(keys);
    }

    /// An empty registry.
    pub fn new() -> (r: RoomProvider)
        ensures
            r.wf(),
            r@ == Map::<Seq<char>, Room>::empty(),
    {
        let r = RoomProvider { rooms: Vec::new() };
        assert(r@ =~= Map::<Seq<char>, Room>::empty());
        r
    }

    /// The position of the room with code `id`, if there is one.
    fn find(&self, id: &str) -> (r: Option<usize>)
        requires
            self.wf(),
        ensures
            match r {
                Some(i) => i < self.rooms@.len() && self.rooms@[i as int].id@ == id@,
                None => !has_key(self.rooms@, id@),
            },
    {
        let key = String::from_str(id);
        let mut i: usize = 0;
        while i < self.rooms.len()
            invariant
                i <= self.rooms@.len(),
                key@ == id@,
                forall|j: int| 0 <= j < i ==> (#[trigger] self.rooms@[j]).id@ != id@,
            decreases self.rooms@.len() - i,
        {
            if self.rooms[i].id == key {
                return Some(i);
            }
            i = i + 1;
        }
        None
    }

    /// Whether a room with code `id` exists.
    pub fn contains(&self, id: &str) -> (r: bool)
        requires
            self.wf(),
        ensures
            r == self@.dom().contains(id@),
    {
        match self.find(id) {
            Some(i) => {
                proof { lemma_entries_map_at(self.rooms@, i as int); }
                true
            }
            None => false,
        }
    }

    /// Opens a room under the code `id` with `user` as its only member,
    /// unless a room with that code already exists; gives the user back
    /// then.
    pub fn open_room(&mut self, id: String, user: User) -> (r: Result<(), User>)
        requires
            old(self).wf(),
        ensures
            final(self).wf(),
            old(self)@.dom().contains(id@) ==> r == Err::<(), User>(user) && final(self)@ == old(self)@,
            !old(self)@.dom().contains(id@) ==> {
                &&& r is Ok
                &&& final(self)@ == old(self)@.insert(id@, final(self)@[id@])
                &&& is_new_room(final(self)@[id@], user)
            },
    {
        if self.contains(id.as_str()) {
            return Err(user);
        }
        let ghost key = id@;
        let entry = RoomEntry { id, room: Room::new(user) };
        proof {
            lemma_entries_map_push(self.rooms@, entry);
        }
        self.rooms.push(entry);
        proof {
            lemma_entries_map_at(self.rooms@, self.rooms@.len() - 1);
        }
        Ok(())
    }

    /// The position of the first drawn code that no room has yet; `None`
    /// when every drawn code is taken.
    pub fn first_free(&self, drawn: &Vec<String>) -> (r: Option<usize>)
        requires
            self.wf(),
        ensures
            match r {
                Some(i) => is_first_free(self@, codes_view(drawn@), i as int),
                None => all_taken(self@, codes_view(drawn@)),
            },
    {
        let mut i: usize = 0;
        while i < drawn.len()
            invariant
                i <= drawn.len(),
                self.wf(),
                forall|j: int| 0 <= j < i ==> self@.dom().contains(#[trigger] codes_view(drawn@)[j]),
            decreases drawn.len() - i,
        {
            if !self.contains(drawn[i].as_str()) {
                return Some(i);
            }
            i = i + 1;
        }
        None
    }

    /// Opens a room for `user` under the first of the drawn codes that no
    /// room has, and returns that code; `KeyGenerationFailed` when every
    /// drawn code is taken.
    pub fn new_room_from(&mut self, drawn: Vec<String>, user: User) -> (r: Result<String, RoomProviderError>)
        requires
            old(self).wf(),
        ensures
            final(self).wf(),
            room_opened_from(old(self)@, final(self)@, codes_view(drawn@), user, r),
    {
        match self.first_free(&drawn) {
            None => Err(RoomProviderError::KeyGenerationFailed),
            Some(i) => {
                let id = drawn[i].clone();
                let copy = id.clone();
                proof { lemma_first_free_unique(old(self)@, codes_view(drawn@), i as int); }
                match self.open_room(copy, user) {
                    Ok(()) => Ok(id),
                    Err(_) => Err(RoomProviderError::KeyGenerationFailed),
                }
            },
        }
    }

    /// Opens a room for `user` under a fresh random code and returns the
    /// code: draws five random codes and takes the first that no room has.
    /// Gives up with `KeyGenerationFailed` when all five are taken, so an
    /// empty registry always succeeds.
    pub fn new_room(&mut self, user: User) -> (r: Result<String, RoomProviderError>)
        requires
            old(self).wf(),
        ensures
            final(self).wf(),
            exists|d: Seq<Seq<char>>| #![trigger drawn_codes(d)]
                drawn_codes(d) && room_opened_from(old(self)@, final(self)@, d, user, r),
            old(self)@.dom().len() == 0 ==> r is Ok,
            r is Err ==> exists|d: Seq<Seq<char>>| #![trigger drawn_codes(d)] drawn_codes(d) && all_taken(old(self)@, d),
            match r {
                Ok(id) => {
                    &&& is_room_code(id@)
                    &&& !old(self)@.dom().contains(id@)
                    &&& final(self)@ == old(self)@.insert(id@, final(self)@[id@])
                    &&& is_new_room(final(self)@[id@], user)
                },
                Err(e) => e == RoomProviderError::KeyGenerationFailed && final(self)@ == old(self)@,
            },
    {
        let mut drawn: Vec<String> = Vec::new();
        let mut k: usize = 0;
        while k < ROOM_CODE_TRIES
            invariant
                k <= ROOM_CODE_TRIES,
                drawn@.len() == k,
                forall|j: int| 0 <= j < k ==> is_room_code(#[trigger] codes_view(drawn@)[j]),
            decreases ROOM_CODE_TRIES - k,
        {
            let code = generate_random_string(ROOM_CODE_LEN);
            let ghost before = drawn@;
            drawn.push(code);
            assert(codes_view(drawn@) =~= codes_view(before).push(code@));
            k = k + 1;
        }
        let ghost d = codes_view(drawn@);
        proof {
            assert(drawn_codes(d));
            if old(self)@.dom().len() == 0 {
                self.lemma_dom_finite();
                old(self)@.dom().lemma_len0_is_empty();
                assert(!old(self)@.dom().contains(d[0]));
            }
        }
        let r = self.new_room_from(drawn, user);
        proof {
            if !all_taken(old(self)@, d) {
                let i = choose|i: int| is_first_free(old(self)@, d, i) && (r matches Ok(id) && id@ == d[i]
                    && final_opened(old(self)@, self@, id@, user));
                assert(is_room_code(d[i]));
            }
        }
        r
    }

    /// Adds `user` as the last member of the room with code `room_id`.
    pub fn join_room(&mut self, room_id: &str, user: User) -> (r: Result<(), RoomProviderError>)
        requires
            old(self).wf(),
        ensures
            final(self).wf(),
            old(self)@.dom().contains(room_id@) ==> {
                &&& r is Ok
                &&& final(self)@ == old(self)@.insert(room_id@, final(self)@[room_id@])
                &&& final(self)@[room_id@].users@ == old(self)@[room_id@].users@.push(user)
                &&& final(self)@[room_id@].player_status == old(self)@[room_id@].player_status
            },
            !old(self)@.dom().contains(room_id@) ==> {
                &&& r == Err::<(), RoomProviderError>(RoomProviderError::RoomDoesntExist)
                &&& final(self)@ == old(self)@
            },
    {
        match self.find(room_id) {
            None => Err(RoomProviderError::RoomDoesntExist),
            Some(i) => {
                let ghost orig = self.rooms@;
                proof { lemma_entries_map_at(orig, i as int); }
                let mut entry = self.rooms.remove(i);
                entry.room.users.push(user);
                self.reinsert(i, entry, Ghost(orig));
                Ok(())
            }
        }
    }

    /// Keeps, in the room with code `room_id`, only the members whose id is
    /// `user_id`, and closes the room when none is left.
    pub fn remove_user(&mut self, room_id: &str, user_id: u128)
        requires
            old(self).wf(),
        ensures
            final(self).wf(),
            user_removed(old(self)@, final(self)@, room_id@, user_id),
    {
        match self.find(room_id) {
            None => {},
            Some(i) => {
                proof { lemma_entries_map_at(self.rooms@, i as int); }
                let ghost orig = self.rooms@;
                let mut entry = self.rooms.remove(i);
                let kept = retain_user(&entry.room.users, user_id);
                if kept.len() == 0 {
                    proof {
                        assert(self.rooms@ =~= orig.remove(i as int));
                        lemma_entries_map_remove(orig, i as int);
                    }
                } else {
                    entry.room.users = kept;
                    self.reinsert(i, entry, Ghost(orig));
                }
            }
        }
    }

    /// Puts a modified room back at the position it was taken from.
    fn reinsert(&mut self, i: usize, entry: RoomEntry, Ghost(orig): Ghost<Seq<RoomEntry>>)
        requires
            keys_distinct(orig),
            forall|j: int| 0 <= j < orig.len() ==> (#[trigger] orig[j]).room.users@.len() > 0,
            i < orig.len(),
            old(self).rooms@ == orig.remove(i as int),
            entry.id@ == orig[i as int].id@,
            entry.room.users@.len() > 0,
        ensures
            final(self).wf(),
            final(self).rooms@ == orig.update(i as int, entry),
            final(self)@ == entries_map(orig).insert(entry.id@, entry.room),
            final(self)@.dom().contains(entry.id@),
            final(self)@[entry.id@] == entry.room,
    {
        let ghost e = entry;
        self.rooms.insert(i, entry);
        proof {
            assert(self.rooms@ =~= orig.update(i as int, e));
            lemma_entries_map_update(orig, i as int, e);
            lemma_entries_map_at(self.rooms@, i as int);
        }
    }
}

impl RoomProvider {
    /// The members of the room with code `room_id`, if it exists.
    pub fn room_users(&self, room_id: &str) -> (r: Option<Vec<UserMeta>>)
        requires
            self.wf(),
        ensures
            self@.dom().contains(room_id@) ==> r is Some && r->0@ == metas(self@[room_id@].users@),
            !self@.dom().contains(room_id@) ==> r is None,
    {
        match self.find(room_id) {
            None => None,
            Some(i) => {
                proof { lemma_entries_map_at(self.rooms@, i as int); }
                Some(user_metas(&self.rooms[i].room.users))
            }
        }
    }

    /// The playback status of the room with code `room_id`, if it exists.
    pub fn get_room_player_status(&self, room_id: &str) -> (r: Option<PlayerStatus>)
        requires
            self.wf(),
        ensures
            r == (if self@.dom().contains(room_id@) {
                Some(self@[room_id@].player_status)
            } else {
                None::<PlayerStatus>
            }),
    {
        match self.find(room_id) {
            None => None,
            Some(i) => {
                proof { lemma_entries_map_at(self.rooms@, i as int); }
                Some(self.rooms[i].room.player_status)
            }
        }
    }

    /// The ids of the members of room `room_id` other than `excluded`, in
    /// order; nobody when the room does not exist.
    pub fn broadcast_targets(&self, room_id: &str, excluded: u128) -> (r: Vec<u128>)
        requires
            self.wf(),
        ensures
            r@ == targets(self@, room_id@, excluded),
    {
        match self.find(room_id) {
            None => Vec::new(),
            Some(i) => {
                proof { lemma_entries_map_at(self.rooms@, i as int); }
                others_of(&self.rooms[i].room.users, excluded)
            }
        }
    }

    /// Whether room `room_id` exists and has a member with id `id`.
    pub fn has_member(&self, room_id: &str, id: u128) -> (r: bool)
        requires
            self.wf(),
        ensures
            r == (self@.dom().contains(room_id@) && has_user(self@[room_id@].users@, id)),
    {
        match self.find(room_id) {
            None => false,
            Some(i) => {
                proof { lemma_entries_map_at(self.rooms@, i as int); }
                first_with_id(&self.rooms[i].room.users, id).is_some()
            }
        }
    }

    /// When the first member of room `room_id` with id `id` last got a call
    /// request; `None` when there is no such room or member.
    pub fn last_call_request(&self, room_id: &str, id: u128) -> (r: Option<Option<u64>>)
        requires
            self.wf(),
        ensures
            r == spec_last_call_request(self@, room_id@, id),
    {
        match self.find(room_id) {
            None => None,
            Some(i) => {
                proof { lemma_entries_map_at(self.rooms@, i as int); }
                match first_with_id(&self.rooms[i].room.users, id) {
                    None => None,
                    Some(j) => Some(self.rooms[i].room.users[j].last_chat_request),
                }
            }
        }
    }

    /// Sets the playback status of room `room_id`, if it exists.
    pub fn set_player_status(&mut self, room_id: &str, status: PlayerStatus)
        requires
            old(self).wf(),
        ensures
            final(self).wf(),
            final(self)@ == (if old(self)@.dom().contains(room_id@) {
                old(self)@.insert(room_id@, room_with_status(old(self)@[room_id@], status))
            } else {
                old(self)@
            }),
    {
        match self.find(room_id) {
            None => {},
            Some(i) => {
                let ghost orig = self.rooms@;
                proof { lemma_entries_map_at(orig, i as int); }
                let mut entry = self.rooms.remove(i);
                entry.room.player_status = status;
                self.reinsert(i, entry, Ghost(orig));
            }
        }
    }

    /// Moves the playback position of room `room_id` to `time`, keeping it
    /// playing or paused as it was.
    pub fn set_player_time(&mut self, room_id: &str, time: Seconds)
        requires
            old(self).wf(),
        ensures
            final(self).wf(),
            final(self)@ == (if old(self)@.dom().contains(room_id@) {
                let room = old(self)@[room_id@];
                old(self)@.insert(room_id@, room_with_status(room, room.player_status.spec_with_time(time)))
            } else {
                old(self)@
            }),
    {
        match self.find(room_id) {
            None => {},
            Some(i) => {
                let ghost orig = self.rooms@;
                proof { lemma_entries_map_at(orig, i as int); }
                let mut entry = self.rooms.remove(i);
                entry.room.player_status = entry.room.player_status.with_time(time);
                self.reinsert(i, entry, Ghost(orig));
            }
        }
    }

    /// Records that the first member of room `room_id` with id `user_id` has
    /// selected the video `meta`.
    pub fn select_video(&mut self, room_id: &str, user_id: u128, meta: VideoMeta)
        requires
            old(self).wf(),
        ensures
            final(self).wf(),
            !(old(self)@.dom().contains(room_id@) && has_user(old(self)@[room_id@].users@, user_id))
                ==> final(self)@ == old(self)@,
            old(self)@.dom().contains(room_id@) && has_user(old(self)@[room_id@].users@, user_id) ==> {
                let users = old(self)@[room_id@].users@;
                exists|i: int| {
                    &&& is_first_with_id(users, user_id, i)
                    &&& final(self)@ == old(self)@.insert(room_id@, final(self)@[room_id@])
                    &&& final(self)@[room_id@].player_status == old(self)@[room_id@].player_status
                    &&& final(self)@[room_id@].users@ == users.update(i, user_with_state(users[i], UserState::VideoSelected(meta)))
                }
            },
    {
        match self.find(room_id) {
            None => {},
            Some(i) => {
                let ghost orig = self.rooms@;
                proof { lemma_entries_map_at(orig, i as int); }
                match first_with_id(&self.rooms[i].room.users, user_id) {
                    None => {},
                    Some(j) => {
                        let mut entry = self.rooms.remove(i);
                        let ghost users = entry.room.users@;
                        let old_user = entry.room.users[j].copy();
                        let updated = User {
                            meta: UserMeta { id: old_user.meta.id, name: old_user.meta.name, state: UserState::VideoSelected(meta) },
                            last_chat_request: old_user.last_chat_request,
                        };
                        entry.room.users.set(j, updated);
                        assert(entry.room.users@ == users.update(j as int, user_with_state(users[j as int], UserState::VideoSelected(meta))));
                        self.reinsert(i, entry, Ghost(orig));
                    }
                }
            }
        }
    }

    /// Stamps the first member of room `room_id` with id `target` as having
    /// received a call request at `now`; reports whether there was one.
    pub fn note_call_request(&mut self, room_id: &str, target: u128, now: u64) -> (r: bool)
        requires
            old(self).wf(),
        ensures
            final(self).wf(),
            r == (old(self)@.dom().contains(room_id@) && has_user(old(self)@[room_id@].users@, target)),
            !r ==> final(self)@ == old(self)@,
            r ==> {
                let users = old(self)@[room_id@].users@;
                exists|i: int| {
                    &&& is_first_with_id(users, target, i)
                    &&& final(self)@ == old(self)@.insert(room_id@, final(self)@[room_id@])
                    &&& final(self)@[room_id@].player_status == old(self)@[room_id@].player_status
                    &&& final(self)@[room_id@].users@ == users.update(i, User { meta: users[i].meta, last_chat_request: Some(now) })
                }
            },
    {
        match self.find(room_id) {
            None => false,
            Some(i) => {
                let ghost orig = self.rooms@;
                proof { lemma_entries_map_at(orig, i as int); }
                match first_with_id(&self.rooms[i].room.users, target) {
                    None => false,
                    Some(j) => {
                        let mut entry = self.rooms.remove(i);
                        let ghost users = entry.room.users@;
                        let old_user = entry.room.users[j].copy();
                        let updated = User { meta: old_user.meta, last_chat_request: Some(now) };
                        entry.room.users.set(j, updated);
                        assert(entry.room.users@ == users.update(j as int, User { meta: users[j as int].meta, last_chat_request: Some(now) }));
                        self.reinsert(i, entry, Ghost(orig));
                        true
                    }
                }
            }
        }
    }

    /// What a visitor may learn about room `room_id` before joining: its
    /// code, its host's name and the name of the video the host selected.
    pub fn get_room_info(&self, room_id: String) -> (r: Option<RoomMetaInfo>)
        requires
            self.wf(),
        ensures
            !self@.dom().contains(room_id@) ==> r is None,
            self@.dom().contains(room_id@) ==> {
                let host = self@[room_id@].users@[0].meta;
                &&& r is Some
                &&& r->0.room_id@ == room_id@
                &&& r->0.host@ == host.name@
                &&& match host.state {
                    UserState::VideoNotSelected => r->0.selected_video is None,
                    UserState::VideoSelected(m) => r->0.selected_video is Some && r->0.selected_video->0@ == m.name@,
                }
            },
    {
        match self.find(room_id.as_str()) {
            None => None,
            Some(i) => {
                proof { lemma_entries_map_at(self.rooms@, i as int); }
                let host = &self.rooms[i].room.users[0].meta;
                let selected_video = match &host.state {
                    UserState::VideoNotSelected => None,
                    UserState::VideoSelected(m) => Some(m.name.clone()),
                };
                Some(RoomMetaInfo { room_id, host: host.name.clone(), selected_video })
            }
        }
    }
}

/// What a visitor may learn about a room before joining it.
#[derive(Debug)]
pub struct RoomMetaInfo {
    pub room_id: String,
    pub host: String,
    pub selected_video: Option<String>,
}

impl RoomMetaInfo {
    /// The page title shown for the room: `TVMate | ` and its code.
    pub fn title(&self) -> (r: String)
        ensures
            r@ == "TVMate | "@ + self.room_id@,
    {
        let mut r = String::from_str("TVMate | ");
        r.append(self.room_id.as_str());
        r
    }

    /// The page description shown for the room, inviting to join its host.
    pub fn description(&self) -> (r: String)
        ensures
            r@ == "Join "@ + self.host@ + " to have watch party together"@,
    {
        let mut r = String::from_str("Join ");
        r.append(self.host.as_str());
        r.append(" to have watch party together");
        r
    }
}

/// `room` with its playback status replaced by `status`.
pub open spec fn room_with_status(room: Room, status: PlayerStatus) -> Room {
    Room { users: room.users, player_status: status }
}

/// `user` with the selection state replaced by `state`.
pub open spec fn user_with_state(user: User, state: UserState) -> User {
    User { meta: UserMeta { id: user.meta.id, name: user.meta.name, state }, last_chat_request: user.last_chat_request }
}

/// Position `i` holds the first member of `users` with id `id`.
pub open spec fn is_first_with_id(users: Seq<User>, id: u128, i: int) -> bool {
    &&& 0 <= i < users.len()
    &&& users[i].meta.id == id
    &&& forall|j: int| 0 <= j < i ==> (#[trigger] users[j]).meta.id != id
}

/// Some member of `users` has id `id`.
pub open spec fn has_user(users: Seq<User>, id: u128) -> bool {
    exists|i: int| 0 <= i < users.len() && (#[trigger] users[i]).meta.id == id
}

/// What the members of `users` are known as.
pub open spec fn metas(users: Seq<User>) -> Seq<UserMeta> {
    users.map_values(|u: User| u.meta)
}

/// The ids of the members of `users` other than `excluded`, in order.
pub open spec fn others(users: Seq<User>, excluded: u128) -> Seq<u128> {
    users.filter(|u: User| u.meta.id != excluded).map_values(|u: User| u.meta.id)
}

/// Who a broadcast to room `room_id` that leaves out `excluded` reaches.
pub open spec fn targets(rooms: Map<Seq<char>, Room>, room_id: Seq<char>, excluded: u128) -> Seq<u128> {
    if rooms.dom().contains(room_id) {
        others(rooms[room_id].users@, excluded)
    } else {
        Seq::empty()
    }
}

/// When the first member of room `room_id` with id `id` last got a call
/// request, if there is such a room and member.
pub open spec fn spec_last_call_request(rooms: Map<Seq<char>, Room>, room_id: Seq<char>, id: u128) -> Option<Option<u64>> {
    if rooms.dom().contains(room_id) && has_user(rooms[room_id].users@, id) {
        let users = rooms[room_id].users@;
        let i = choose|i: int| is_first_with_id(users, id, i);
        Some(users[i].last_chat_request)
    } else {
        None
    }
}

/// The first position of a member with id `id`.
fn first_with_id(users: &Vec<User>, id: u128) -> (r: Option<usize>)
    ensures
        match r {
            Some(i) => is_first_with_id(users@, id, i as int),
            None => !has_user(users@, id),
        },
{
    let mut i: usize = 0;
    while i < users.len()
        invariant
            i <= users.len(),
            forall|j: int| 0 <= j < i ==> (#[trigger] users@[j]).meta.id != id,
        decreases users.len() - i,
    {
        if users[i].meta.id == id {
            return Some(i);
        }
        i = i + 1;
    }
    None
}

/// A list of members has at most one first member with a given id.
pub proof fn lemma_first_unique(users: Seq<User>, id: u128, i: int, j: int)
    requires
        is_first_with_id(users, id, i),
        is_first_with_id(users, id, j),
    ensures
        i == j,
{
    if i < j {
        assert(users[i].meta.id != id);
    } else if j < i {
        assert(users[j].meta.id != id);
    }
}

fn user_metas(users: &Vec<User>) -> (r: Vec<UserMeta>)
    ensures
        r@ == metas(users@),
{
    let mut r: Vec<UserMeta> = Vec::new();
    let mut i: usize = 0;
    while i < users.len()
        invariant
            i <= users.len(),
            r@ == metas(users@.subrange(0, i as int)),
        decreases users.len() - i,
    {
        r.push(users[i].meta.copy());
        assert(metas(users@.subrange(0, i + 1)) =~= metas(users@.subrange(0, i as int)).push(users@[i as int].meta));
        i = i + 1;
    }
    assert(users@.subrange(0, users.len() as int) =~= users@);
    r
}

fn others_of(users: &Vec<User>, excluded: u128) -> (r: Vec<u128>)
    ensures
        r@ == others(users@, excluded),
{
    let mut r: Vec<u128> = Vec::new();
    let mut i: usize = 0;
    while i < users.len()
        invariant
            i <= users.len(),
            r@ == others(users@.subrange(0, i as int), excluded),
        decreases users.len() - i,
    {
        proof { reveal(Seq::filter); }
        let ghost pred = |u: User| u.meta.id != excluded;
        let ghost s1 = users@.subrange(0, i + 1);
        assert(s1.drop_last() =~= users@.subrange(0, i as int));
        assert(s1.filter(pred) == (if pred(s1.last()) {
            s1.drop_last().filter(pred).push(s1.last())
        } else {
            s1.drop_last().filter(pred)
        }));
        if users[i].meta.id != excluded {
            r.push(users[i].meta.id);
            assert(s1.filter(pred).map_values(|u: User| u.meta.id) =~= s1.drop_last().filter(pred).map_values(|u: User| u.meta.id).push(users@[i as int].meta.id));
        }
        i = i + 1;
    }
    assert(users@.subrange(0, users.len() as int) =~= users@);
    r
}

/// The effect of `remove_user(room_id, user_id)`: the room keeps only the
/// members with that id, and is closed when none is left.
pub open spec fn user_removed(old: Map<Seq<char>, Room>, new: Map<Seq<char>, Room>, room_id: Seq<char>, user_id: u128) -> bool {
    if old.dom().contains(room_id) {
        let kept = kept_users(old[room_id].users@, user_id);
        if kept.len() == 0 {
            new == old.remove(room_id)
        } else {
            &&& new == old.insert(room_id, new[room_id])
            &&& new[room_id].users@ == kept
            &&& new[room_id].player_status == old[room_id].player_status
        }
    } else {
        new == old
    }
}

/// The codes of `v`, each as its characters.
pub open spec fn codes_view(v: Seq<String>) -> Seq<Seq<char>> {
    v.map_values(|s: String| s@)
}

/// `drawn` is what `new_room` draws: five room codes.
pub open spec fn drawn_codes(drawn: Seq<Seq<char>>) -> bool {
    &&& drawn.len() == ROOM_CODE_TRIES
    &&& forall|i: int| 0 <= i < drawn.len() ==> is_room_code(#[trigger] drawn[i])
}

/// Position `i` holds the first drawn code that no room has.
pub open spec fn is_first_free(rooms: Map<Seq<char>, Room>, drawn: Seq<Seq<char>>, i: int) -> bool {
    &&& 0 <= i < drawn.len()
    &&& !rooms.dom().contains(drawn[i])
    &&& forall|j: int| 0 <= j < i ==> rooms.dom().contains(#[trigger] drawn[j])
}

/// Every drawn code is taken already.
pub open spec fn all_taken(rooms: Map<Seq<char>, Room>, drawn: Seq<Seq<char>>) -> bool {
    forall|j: int| 0 <= j < drawn.len() ==> rooms.dom().contains(#[trigger] drawn[j])
}

/// `new` is `old` with a new room for `user` under the fresh code `id`.
pub open spec fn final_opened(old: Map<Seq<char>, Room>, new: Map<Seq<char>, Room>, id: Seq<char>, user: User) -> bool {
    &&& !old.dom().contains(id)
    &&& new == old.insert(id, new[id])
    &&& is_new_room(new[id], user)
}

/// The effect of opening a room for `user` with the codes `drawn`: under
/// the first one no room has, or, when all are taken, not at all.
pub open spec fn room_opened_from(
    old: Map<Seq<char>, Room>,
    new: Map<Seq<char>, Room>,
    drawn: Seq<Seq<char>>,
    user: User,
    r: Result<String, RoomProviderError>,
) -> bool {
    if all_taken(old, drawn) {
        r == Err::<String, RoomProviderError>(RoomProviderError::KeyGenerationFailed) && new == old
    } else {
        exists|i: int| #![trigger is_first_free(old, drawn, i)]
            is_first_free(old, drawn, i) && (r matches Ok(id) && id@ == drawn[i] && final_opened(old, new, id@, user))
    }
}

proof fn lemma_first_free_unique(rooms: Map<Seq<char>, Room>, drawn: Seq<Seq<char>>, i: int)
    requires
        is_first_free(rooms, drawn, i),
    ensures
        !all_taken(rooms, drawn),
        forall|j: int| is_first_free(rooms, drawn, j) ==> j == i,
{
    assert forall|j: int| is_first_free(rooms, drawn, j) implies j == i by {
        if j < i {
            assert(rooms.dom().contains(drawn[j]));
        } else if i < j {
            assert(rooms.dom().contains(drawn[i]));
        }
    }
}

/// The members of `users` whose id is `user_id`, in order.
pub open spec fn kept_users(users: Seq<User>, user_id: u128) -> Seq<User> {
    users.filter(|u: User| u.meta.id == user_id)
}

fn retain_user(users: &Vec<User>, user_id: u128) -> (r: Vec<User>)
    ensures
        r@ == kept_users(users@, user_id),
{
    let mut r: Vec<User> = Vec::new();
    let mut i: usize = 0;
    while i < users.len()
        invariant
            i <= users.len(),
            r@ == kept_users(users@.subrange(0, i as int), user_id),
        decreases users.len() - i,
    {
        proof { reveal(Seq::filter); }
        let ghost pred = |u: User| u.meta.id == user_id;
        let ghost s1 = users@.subrange(0, i + 1);
        assert(s1.drop_last() =~= users@.subrange(0, i as int));
        assert(s1.last() == users@[i as int]);
        assert(kept_users(s1, user_id) == s1.filter(pred));
        assert(kept_users(users@.subrange(0, i as int), user_id) == s1.drop_last().filter(pred));
        assert(s1.filter(pred) == (if pred(s1.last()) {
            s1.drop_last().filter(pred).push(s1.last())
        } else {
            s1.drop_last().filter(pred)
        }));
        if users[i].meta.id == user_id {
            let u = users[i].copy();
            r.push(u);
        }
        assert(r@ == kept_users(s1, user_id));
        i = i + 1;
    }
    assert(users@.subrange(0, users.len() as int) =~= users@);
    r
}

/// A broadcast never reaches the member it leaves out.
pub proof fn lemma_broadcast_skips_excluded(rooms: Map<Seq<char>, Room>, room_id: Seq<char>, excluded: u128)
    ensures
        forall|i: int| 0 <= i < targets(rooms, room_id, excluded).len() ==> #[trigger] targets(rooms, room_id, excluded)[i] != excluded,
{
    if rooms.dom().contains(room_id) {
        let pred = |u: User| u.meta.id != excluded;
        let kept = rooms[room_id].users@.filter(pred);
        assert forall|i: int| 0 <= i < targets(rooms, room_id, excluded).len() implies #[trigger] targets(rooms, room_id, excluded)[i] != excluded by {
            rooms[room_id].users@.lemma_filter_pred(pred, i);
        }
    }
}

/// Joining a room never changes its host: the member listed first before
/// the join is listed first after it.
pub proof fn lemma_join_keeps_host(before: RoomProvider, after: RoomProvider, room_id: Seq<char>, user: User)
    requires
        before.wf(),
        before@.dom().contains(room_id),
        after@.dom().contains(room_id),
        after@[room_id].users@ == before@[room_id].users@.push(user),
    ensures
        after@[room_id].users@[0] == before@[room_id].users@[0],
{
    before.lemma_rooms_nonempty(room_id);
}

/// A broadcast reaches every member of the room other than the one it
/// leaves out.
pub proof fn lemma_broadcast_reaches_others(rooms: Map<Seq<char>, Room>, room_id: Seq<char>, excluded: u128, i: int)
    requires
        rooms.dom().contains(room_id),
        0 <= i < rooms[room_id].users@.len(),
        rooms[room_id].users@[i].meta.id != excluded,
    ensures
        targets(rooms, room_id, excluded).contains(rooms[room_id].users@[i].meta.id),
{
    let users = rooms[room_id].users@;
    let pred = |u: User| u.meta.id != excluded;
    users.lemma_filter_contains(pred, i);
    let kept = users.filter(pred);
    let j = choose|j: int| 0 <= j < kept.len() && kept[j] == users[i];
    assert(targets(rooms, room_id, excluded)[j] == users[i].meta.id);
}

/// A broadcast reaches members of the room only.
pub proof fn lemma_broadcast_only_members(rooms: Map<Seq<char>, Room>, room_id: Seq<char>, excluded: u128, i: int)
    requires
        0 <= i < targets(rooms, room_id, excluded).len(),
    ensures
        rooms.dom().contains(room_id),
        exists|j: int| 0 <= j < rooms[room_id].users@.len()
            && (#[trigger] rooms[room_id].users@[j]).meta.id == targets(rooms, room_id, excluded)[i],
{
    let users = rooms[room_id].users@;
    let pred = |u: User| u.meta.id != excluded;
    let kept = users.filter(pred);
    assert(kept.contains(kept[i]));
    users.lemma_filter_contains_rev(pred, kept[i]);
    let j = choose|j: int| 0 <= j < users.len() && users[j] == kept[i];
    assert(users[j].meta.id == targets(rooms, room_id, excluded)[i]);
}

} // verus!
