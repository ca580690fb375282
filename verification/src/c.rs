//! The boundary to callers that hold handles and fixed-size buffers instead of
//! owned values.
//!
//! Three things are decided here. How a text is laid out in a buffer, and
//! that it is refused where it does not fit. What becomes of the entry that
//! holds a key when a borrow of it is asked for, handed back, or the entry is
//! released. And what each operation of the boundary does with arguments
//! that arrive as a handle and as bytes, before a request is sent and after
//! its answer has come.

use vstd::prelude::*;
use vstd::string::*;
use crate::error::{Error, ErrorType};
use crate::etsi014_client::{text_views, Call, ETSI014Client};
use crate::exchange::{
    check_count, is_count_failure, is_keys_outcome, is_status_outcome, read_keys, read_status,
    Exchange,
};
use crate::json::key_request::key_request_text;
use crate::json::keys_by_ids_request::keys_by_ids_text;
use crate::status::Status;
use crate::store::SecretBytes;
use crate::text::{decimal_digits, decimal_text, text_bytes, utf8_text};
use crate::transport::request_rendered;

verus! {

/// Bytes of the buffer that holds a key identifier, terminator included.
pub const SAE_ID_LENGTH: usize = 37;

/// `p` is the place of the first zero byte of `bytes`.
pub open spec fn is_first_nul(bytes: Seq<u8>, p: int) -> bool {
    &&& 0 <= p < bytes.len()
    &&& bytes[p] == 0
    &&& forall|j: int| 0 <= j < p ==> bytes[j] != 0
}

/// `bytes` holds a zero byte.
pub open spec fn has_nul(bytes: Seq<u8>) -> bool {
    exists|p: int| 0 <= p < bytes.len() && bytes[p] == 0
}

/// A buffer of `size` bytes that starts with `bytes` and is zero from there on.
pub open spec fn c_string_in(bytes: Seq<u8>, size: nat) -> Seq<u8> {
    Seq::new(size, |i: int| if i < bytes.len() { bytes[i] } else { 0u8 })
}

/// The cause reported for a zero byte at place `p`.
pub open spec fn nul_cause(p: int) -> Seq<char> {
    "nul byte found in provided data at position: "@ + decimal_digits(p as nat)
}

/// The message for a text with a zero byte inside.
pub open spec fn nul_message(s: Seq<char>) -> Seq<char> {
    "Null byte in C string: "@ + s
}

/// The message for a text that needs `needed` bytes where only `size` are there.
pub open spec fn too_long_message(size: nat, needed: nat, s: Seq<char>) -> Seq<char> {
    "String longer than "@ + decimal_digits(size) + " characters ("@ + decimal_digits(needed)
        + "): "@ + s
}

/// The place of the first zero byte of `bytes`, if there is one.
pub fn find_nul(bytes: &[u8]) -> (r: Option<usize>)
    ensures
        match r {
            Some(p) => is_first_nul(bytes@, p as int),
            None => !has_nul(bytes@),
        },
{
    let mut i: usize = 0;
    while i < bytes.len()
        invariant
            i <= bytes.len(),
            forall|j: int| 0 <= j < i ==> bytes@[j] != 0,
        decreases bytes.len() - i,
    {
        if bytes[i] == 0 {
            return Some(i);
        }
        i += 1;
    }
    None
}

/// `s` can be laid out in a buffer of `size` bytes: it holds no zero byte and
/// leaves room for the terminator.
pub open spec fn fits_buffer(s: Seq<char>, size: nat) -> bool {
    &&& !has_nul(text_bytes(s))
    &&& text_bytes(s).len() + 1 <= size
}

/// `e` is the error that refuses `s` for a buffer of `size` bytes.
pub open spec fn is_marshal_failure(s: Seq<char>, size: nat, e: Error) -> bool {
    &&& e.kind == ErrorType::InvalidResponse
    &&& if has_nul(text_bytes(s)) {
        &&& e.msg@ == nul_message(s)
        &&& exists|p: int|
            is_first_nul(text_bytes(s), p) && e.source_view() == Some(nul_cause(p))
    } else {
        &&& e.msg@ == too_long_message(size, (text_bytes(s).len() + 1) as nat, s)
        &&& e.source is None
    }
}

/// Lays `s` out as a zero-terminated string in a buffer of `SIZE` bytes.
///
/// A text with a zero byte inside, or one that does not fit together with its
/// terminator, is refused; nothing is ever cut off.
pub fn create_cstr<const SIZE: usize>(s: String) -> (r: Result<[u8; SIZE], Error>)
    ensures
        match r {
            Ok(buffer) => fits_buffer(s@, SIZE as nat) && buffer@ == c_string_in(
                text_bytes(s@),
                SIZE as nat,
            ),
            Err(e) => !fits_buffer(s@, SIZE as nat) && is_marshal_failure(s@, SIZE as nat, e),
        },
{
    let bytes = s.as_str().as_bytes();
    match find_nul(bytes) {
        Some(p) => {
            let mut msg = String::from_str("Null byte in C string: ");
            msg.append(s.as_str());
            let mut cause = String::from_str("nul byte found in provided data at position: ");
            cause.append(decimal_text(p as u128).as_str());
            Err(Error::new(msg, ErrorType::InvalidResponse, Some(cause)))
        },
        None => {
            if bytes.len() >= SIZE {
                let mut msg = String::from_str("String longer than ");
                msg.append(decimal_text(SIZE as u128).as_str());
                msg.append(" characters (");
                msg.append(decimal_text(bytes.len() as u128 + 1).as_str());
                msg.append("): ");
                msg.append(s.as_str());
                return Err(Error::new(msg, ErrorType::InvalidResponse, None));
            }
            let mut buffer: [u8; SIZE] = [0u8; SIZE];
            let mut i: usize = 0;
            while i < bytes.len()
                invariant
                    i <= bytes.len() < SIZE,
                    forall|j: int| 0 <= j < i ==> buffer@[j] == bytes@[j],
                    forall|j: int| i <= j < SIZE ==> buffer@[j] == 0,
                decreases bytes.len() - i,
            {
                buffer[i] = bytes[i];
                i += 1;
            }
            assert(buffer@ =~= c_string_in(bytes@, SIZE as nat));
            Ok(buffer)
        },
    }
}

/// A status as the callers of the boundary receive it: identifiers in buffers
/// of fixed size, numbers as they are.
#[derive(Debug)]
pub struct CStatus {
    pub source_kme_id: [u8; 255],
    pub target_kme_id: [u8; 255],
    pub source_sae_id: [u8; 255],
    pub target_sae_id: [u8; 255],
    pub key_size: u32,
    pub stored_key_count: u32,
    pub max_key_count: u32,
    pub max_key_per_request: u32,
    pub max_key_size: u32,
    pub min_key_size: u32,
    pub max_sae_id_count: u32,
}

/// `c` holds exactly what `s` holds.
pub open spec fn is_status_layout(s: Status, c: CStatus) -> bool {
    &&& c.source_kme_id@ == c_string_in(text_bytes(s.source_kme_id@), 255)
    &&& c.target_kme_id@ == c_string_in(text_bytes(s.target_kme_id@), 255)
    &&& c.source_sae_id@ == c_string_in(text_bytes(s.source_sae_id@), 255)
    &&& c.target_sae_id@ == c_string_in(text_bytes(s.target_sae_id@), 255)
    &&& c.key_size == s.key_size
    &&& c.stored_key_count == s.stored_key_count
    &&& c.max_key_count == s.max_key_count
    &&& c.max_key_per_request == s.max_key_per_request
    &&& c.max_key_size == s.max_key_size
    &&& c.min_key_size == s.min_key_size
    &&& c.max_sae_id_count == s.max_sae_id_count
}

/// Every identifier of `s` fits its buffer.
pub open spec fn status_fits(s: Status) -> bool {
    &&& fits_buffer(s.source_kme_id@, 255)
    &&& fits_buffer(s.target_kme_id@, 255)
    &&& fits_buffer(s.source_sae_id@, 255)
    &&& fits_buffer(s.target_sae_id@, 255)
}

/// `e` refuses the first identifier of `s`, in the order of the fields, that
/// does not fit its buffer.
pub open spec fn is_status_failure(s: Status, e: Error) -> bool {
    if !fits_buffer(s.source_kme_id@, 255) {
        is_marshal_failure(s.source_kme_id@, 255, e)
    } else if !fits_buffer(s.target_kme_id@, 255) {
        is_marshal_failure(s.target_kme_id@, 255, e)
    } else if !fits_buffer(s.source_sae_id@, 255) {
        is_marshal_failure(s.source_sae_id@, 255, e)
    } else {
        is_marshal_failure(s.target_sae_id@, 255, e)
    }
}

/// Lays a status out for the callers of the boundary.
pub fn marshal_status(s: Status) -> (r: Result<CStatus, Error>)
    ensures
        match r {
            Ok(c) => status_fits(s) && is_status_layout(s, c),
            Err(e) => !status_fits(s) && is_status_failure(s, e),
        },
{
    let source_kme_id = match create_cstr::<255>(s.source_kme_id) {
        Ok(buffer) => buffer,
        Err(e) => {
            return Err(e);
        },
    };
    let target_kme_id = match create_cstr::<255>(s.target_kme_id) {
        Ok(buffer) => buffer,
        Err(e) => {
            return Err(e);
        },
    };
    let source_sae_id = match create_cstr::<255>(s.source_sae_id) {
        Ok(buffer) => buffer,
        Err(e) => {
            return Err(e);
        },
    };
    let target_sae_id = match create_cstr::<255>(s.target_sae_id) {
        Ok(buffer) => buffer,
        Err(e) => {
            return Err(e);
        },
    };
    Ok(
        CStatus {
            source_kme_id,
            target_kme_id,
            source_sae_id,
            target_sae_id,
            key_size: s.key_size,
            stored_key_count: s.stored_key_count,
            max_key_count: s.max_key_count,
            max_key_per_request: s.max_key_per_request,
            max_key_size: s.max_key_size,
            min_key_size: s.min_key_size,
            max_sae_id_count: s.max_sae_id_count,
        },
    )
}

/// The states of the entry that holds one key.
#[derive(Debug, Clone, Copy, PartialEq, Eq, Structural)]
pub enum KeyState {
    /// The key is there and closed to reading and writing.
    Protected,
    /// The key is there and one borrow of it is open.
    Borrowed,
    /// The key has been wiped and given back.
    Freed,
}

/// The state after asking for a borrow: only a protected entry opens one.
pub open spec fn after_unprotect(state: KeyState) -> KeyState {
    match state {
        KeyState::Protected => KeyState::Borrowed,
        other => other,
    }
}

/// Whether asking for a borrow in `state` grants one.
pub open spec fn grants_borrow(state: KeyState) -> bool {
    state == KeyState::Protected
}

/// The state after handing a token back: the token of the entry ends the
/// open borrow; no token, or the token of another entry, ends nothing.
pub open spec fn after_protect(state: KeyState, token: bool) -> KeyState {
    if token && state == KeyState::Borrowed {
        KeyState::Protected
    } else {
        state
    }
}

/// The state after releasing the entry.
pub open spec fn after_free(state: KeyState) -> KeyState {
    KeyState::Freed
}

/// The token of one open borrow. It names the entry that handed it out, and
/// there is no way to copy one.
#[derive(Debug)]
pub struct KeyBytesBorrow {
    entry: u64,
}

impl KeyBytesBorrow {
    /// The name of the entry that handed the token out.
    pub closed spec fn entry(&self) -> u64 {
        self.entry
    }

    /// Tells the name of the entry that handed the token out.
    pub fn entry_id(&self) -> (id: u64)
        ensures
            id == self.entry(),
    {
        self.entry
    }
}

/// `token` is there and was handed out by the entry called `id`.
pub open spec fn is_token_of(token: Option<KeyBytesBorrow>, id: u64) -> bool {
    token matches Some(t) && t.entry() == id
}

/// The entry that owns one key of type `K` from the moment it is received
/// until it is released.
///
/// An entry has a name, which whoever makes entries gives to no other, and
/// only tokens that carry that name open its key or end its borrow. The key
/// is dropped when the entry is released, and with a key that wipes its
/// memory on drop, as `SecretBytes` does, that is when the bytes are
/// overwritten.
#[derive(Debug)]
pub struct KeyBytesProtected<K> {
    id: u64,
    key: Option<K>,
    borrowed: bool,
}

impl<K> KeyBytesProtected<K> {
    /// The name of the entry.
    pub closed spec fn id(&self) -> u64 {
        self.id
    }

    /// The state of the entry.
    pub closed spec fn state(&self) -> KeyState {
        if self.key is None {
            KeyState::Freed
        } else if self.borrowed {
            KeyState::Borrowed
        } else {
            KeyState::Protected
        }
    }

    /// The key that the entry holds; none once it is released.
    pub closed spec fn key(&self) -> Option<K> {
        self.key
    }

    /// A released entry holds no key, every other entry holds one.
    pub proof fn lemma_key_iff_not_freed(&self)
        ensures
            self.key() is None <==> self.state() == KeyState::Freed,
    {
    }

    /// Takes a key into a protected entry called `id`.
    pub fn new(key: K, id: u64) -> (entry: Self)
        ensures
            entry.state() == KeyState::Protected,
            entry.key() == Some(key),
            entry.id() == id,
    {
        KeyBytesProtected { id, key: Some(key), borrowed: false }
    }

    /// Tells the name of the entry.
    pub fn entry_id(&self) -> (id: u64)
        ensures
            id == self.id(),
    {
        self.id
    }

    /// Tells the state of the entry.
    pub fn current_state(&self) -> (s: KeyState)
        ensures
            s == self.state(),
    {
        if self.key.is_none() {
            KeyState::Freed
        } else if self.borrowed {
            KeyState::Borrowed
        } else {
            KeyState::Protected
        }
    }

    /// Opens the one borrow of a protected entry and hands out its token.
    /// An entry that is released, or whose borrow is open already, hands out
    /// nothing and stays as it is.
    pub fn unprotect(&mut self) -> (token: Option<KeyBytesBorrow>)
        ensures
            final(self).state() == after_unprotect(old(self).state()),
            final(self).key() == old(self).key(),
            final(self).id() == old(self).id(),
            token is Some <==> grants_borrow(old(self).state()),
            token is Some ==> is_token_of(token, old(self).id()),
    {
        if self.key.is_some() && !self.borrowed {
            self.borrowed = true;
            Some(KeyBytesBorrow { entry: self.id })
        } else {
            None
        }
    }

    /// Ends the borrow whose token is handed back, and takes the token away.
    /// Without a token, with the token of another entry, or on an entry with
    /// no open borrow, the entry stays as it is; the token of another entry
    /// is left with the caller.
    pub fn protect(&mut self, token: &mut Option<KeyBytesBorrow>)
        ensures
            final(self).state() == after_protect(
                old(self).state(),
                is_token_of(*old(token), old(self).id()),
            ),
            final(self).key() == old(self).key(),
            final(self).id() == old(self).id(),
            *final(token) == if is_token_of(*old(token), old(self).id()) {
                None
            } else {
                *old(token)
            },
    {
        let fits = match token.as_ref() {
            Some(t) => t.entry == self.id,
            None => false,
        };
        if fits {
            if self.key.is_some() {
                self.borrowed = false;
            }
            *token = None;
        }
    }

    /// Releases the entry: the key is dropped, and any open borrow with it.
    /// A released entry stays released.
    pub fn free(&mut self)
        ensures
            final(self).state() == after_free(old(self).state()),
            final(self).key() is None,
            final(self).id() == old(self).id(),
    {
        self.key = None;
        self.borrowed = false;
    }

    /// The key, for the holder of the token of the open borrow of this
    /// entry; nothing where no borrow is open or the token is another
    /// entry's.
    pub fn borrowed_key(&self, token: &KeyBytesBorrow) -> (r: Option<&K>)
        ensures
            match r {
                Some(key) => {
                    &&& self.state() == KeyState::Borrowed
                    &&& token.entry() == self.id()
                    &&& self.key() == Some(*key)
                },
                None => self.state() != KeyState::Borrowed || token.entry() != self.id(),
            },
    {
        if self.borrowed && token.entry == self.id {
            self.key.as_ref()
        } else {
            None
        }
    }

    /// The key, to be changed in place, for the holder of the token of the
    /// open borrow of this entry; nothing where no borrow is open or the
    /// token is another entry's.
    pub fn borrowed_key_mut(&mut self, token: &KeyBytesBorrow) -> (r: Option<&mut K>)
        ensures
            match r {
                Some(key) => {
                    &&& old(self).state() == KeyState::Borrowed
                    &&& token.entry() == old(self).id()
                    &&& old(self).key() == Some(*key)
                    &&& final(self).state() == KeyState::Borrowed
                    &&& final(self).key() == Some(*final(key))
                    &&& final(self).id() == old(self).id()
                },
                None => {
                    &&& old(self).state() != KeyState::Borrowed || token.entry() != old(self).id()
                    &&& *final(self) == *old(self)
                },
            },
    {
        if self.borrowed && token.entry == self.id {
            self.key.as_mut()
        } else {
            None
        }
    }

    /// Takes the entry apart: the key it holds, if it holds one.
    pub fn into_key(self) -> (r: Option<K>)
        ensures
            r == self.key(),
    {
        self.key
    }
}

/// Releasing twice is releasing once, and a released entry neither opens nor
/// ends a borrow.
pub proof fn lemma_free_is_final(state: KeyState, token: bool)
    ensures
        after_free(after_free(state)) == after_free(state),
        after_unprotect(after_free(state)) == after_free(state),
        !grants_borrow(after_free(state)),
        after_protect(after_free(state), token) == after_free(state),
{
}

/// Handing a token back twice is handing it back once: the second time the
/// entry is protected already, or released, and stays so.
pub proof fn lemma_protect_is_idempotent(state: KeyState, first: bool, second: bool)
    ensures
        after_protect(after_protect(state, true), second) == after_protect(state, true),
        after_protect(KeyState::Protected, first) == KeyState::Protected,
{
}

/// Without the token of the entry nothing ends: neither no token nor the
/// token of another entry changes the state.
pub proof fn lemma_foreign_token_ends_nothing(state: KeyState)
    ensures
        after_protect(state, false) == state,
{
}

/// One borrow at a time: whatever the entry was, after a request for a
/// borrow no second request is granted; and once the token has been handed
/// back, an entry that is not released grants the next.
pub proof fn lemma_one_borrow_at_a_time(state: KeyState)
    ensures
        !grants_borrow(after_unprotect(state)),
        grants_borrow(after_protect(after_unprotect(state), true)) <==> state != KeyState::Freed,
{
}

/// A key that is borrowed, handed back and released ends released, and so
/// does one that is released while its borrow is still open; no borrow is
/// granted after that.
pub proof fn lemma_cycle_ends_released(state: KeyState, token: bool)
    ensures
        after_free(after_protect(after_unprotect(state), token)) == KeyState::Freed,
        after_free(after_unprotect(state)) == KeyState::Freed,
        !grants_borrow(after_free(after_unprotect(state))),
{
}

/// One key as the callers of the boundary receive it: its identifier in a
/// buffer of fixed size, the number of its bytes, and the entry that holds
/// the bytes.
#[derive(Debug)]
pub struct CKey {
    pub uuid: [u8; SAE_ID_LENGTH],
    pub key_size: u32,
    pub key_bytes_protected: KeyBytesProtected<SecretBytes>,
}

/// Puts a key and its laid-out identifier together, the key in a protected
/// entry of its own that is called `id`.
pub fn key_vec_to_ckey(uuid: [u8; SAE_ID_LENGTH], key_vec: SecretBytes, id: u64) -> (c: CKey)
    requires
        key_vec@.len() <= u32::MAX,
    ensures
        c.uuid == uuid,
        c.key_size == key_vec@.len(),
        c.key_bytes_protected.state() == KeyState::Protected,
        c.key_bytes_protected.key() == Some(key_vec),
        c.key_bytes_protected.id() == id,
{
    let key_size = key_vec.len() as u32;
    CKey { uuid, key_size, key_bytes_protected: KeyBytesProtected::new(key_vec, id) }
}

/// The key `key` can be laid out: its identifier fits the buffer and the
/// number of its bytes fits 32 bits.
pub open spec fn key_fits(key: (String, SecretBytes)) -> bool {
    &&& fits_buffer(key.0@, SAE_ID_LENGTH as nat)
    &&& key.1@.len() <= u32::MAX
}

/// `c` holds exactly what `key` holds, in a protected entry.
pub open spec fn is_key_layout(key: (String, SecretBytes), c: CKey) -> bool {
    &&& c.uuid@ == c_string_in(text_bytes(key.0@), SAE_ID_LENGTH as nat)
    &&& c.key_size == key.1@.len()
    &&& c.key_bytes_protected.state() == KeyState::Protected
    &&& c.key_bytes_protected.key() == Some(key.1)
}

/// The message for a key with more bytes than 32 bits can count.
pub open spec fn long_key_message(key_id: Seq<char>) -> Seq<char> {
    "Key too long to be described: "@ + key_id
}

/// `e` refuses `key`, which cannot be laid out.
pub open spec fn is_key_failure(key: (String, SecretBytes), e: Error) -> bool {
    if !fits_buffer(key.0@, SAE_ID_LENGTH as nat) {
        is_marshal_failure(key.0@, SAE_ID_LENGTH as nat, e)
    } else {
        &&& e.kind == ErrorType::InvalidResponse
        &&& e.msg@ == long_key_message(key.0@)
        &&& e.source is None
    }
}

/// `e` refuses `keys`, of which `expected` were asked for: for their number,
/// or else for the first of them that cannot be laid out.
pub open spec fn is_keys_failure(keys: Seq<(String, SecretBytes)>, expected: nat, e: Error) -> bool {
    if keys.len() != expected {
        is_count_failure(keys.len(), expected, e)
    } else {
        exists|i: int|
            {
                &&& 0 <= i < keys.len()
                &&& !key_fits(keys[i])
                &&& forall|j: int| 0 <= j < i ==> key_fits(#[trigger] keys[j])
                &&& is_key_failure(keys[i], e)
            }
    }
}

/// `ckeys` are `keys` laid out, one for one, each entry called by its place
/// in the list.
pub open spec fn are_key_layouts(keys: Seq<(String, SecretBytes)>, ckeys: Seq<CKey>) -> bool {
    &&& ckeys.len() == keys.len()
    &&& forall|i: int|
        0 <= i < keys.len() ==> {
            &&& key_fits(keys[i])
            &&& is_key_layout(keys[i], #[trigger] ckeys[i])
            &&& ckeys[i].key_bytes_protected.id() == i
        }
}

/// Lays out the keys of an answer for a caller that made room for
/// `expected` of them.
///
/// Another number of keys, an identifier that does not fit its buffer and a
/// key too long to be described each refuse the whole list: no key is laid
/// out then, and every key is dropped.
pub fn marshal_keys(keys: Vec<(String, SecretBytes)>, expected: usize) -> (r: Result<
    Vec<CKey>,
    Error,
>)
    ensures
        match r {
            Ok(ckeys) => keys@.len() == expected && are_key_layouts(keys@, ckeys@),
            Err(e) => is_keys_failure(keys@, expected as nat, e),
        },
{
    check_count(keys.len(), expected)?;
    let ghost all = keys@;
    let mut ckeys: Vec<CKey> = Vec::with_capacity(keys.len());
    for key in it: keys
        invariant
            it.seq() == all,
            all.len() == expected,
            ckeys@.len() == it.index(),
            forall|j: int|
                0 <= j < it.index() ==> {
                    &&& key_fits(all[j])
                    &&& is_key_layout(all[j], #[trigger] ckeys@[j])
                    &&& ckeys@[j].key_bytes_protected.id() == j
                },
            forall|j: int| 0 <= j < it.index() ==> key_fits(#[trigger] all[j]),
    {
        assert(key == all[it.index() as int]);
        let ghost done = ckeys@;
        let (key_id, key_vec) = key;
        let key_name = key_id.clone();
        let uuid = match create_cstr::<SAE_ID_LENGTH>(key_id) {
            Ok(uuid) => uuid,
            Err(e) => {
                return Err(e);
            },
        };
        if key_vec.len() > 0xffff_ffff {
            let mut msg = String::from_str("Key too long to be described: ");
            msg.append(key_name.as_str());
            return Err(Error::new(msg, ErrorType::InvalidResponse, None));
        }
        let place = ckeys.len() as u64;
        ckeys.push(key_vec_to_ckey(uuid, key_vec, place));
        assert(forall|j: int| 0 <= j < done.len() ==> ckeys@[j] == done[j]);
    }
    Ok(ckeys)
}

/// The message for an argument called `name` whose bytes are no text.
pub open spec fn not_text_message(name: Seq<char>) -> Seq<char> {
    name + " is not valid UTF8"@
}

/// `e` refuses an argument called `name` whose bytes are no text.
pub open spec fn is_not_text(name: Seq<char>, kind: ErrorType, e: Error) -> bool {
    &&& e.kind == kind
    &&& e.msg@ == not_text_message(name)
    &&& e.source is Some
}

/// `e` refuses a handle that points to nothing.
pub open spec fn is_null_handle(e: Error) -> bool {
    &&& e.kind == ErrorType::InvalidArgument
    &&& e.msg@ == "Null pointer passed to get_status"@
    &&& e.source is None
}

/// `r` is the text that `bytes` hold, or the error of kind `kind` that says
/// that the argument called `name` is no text.
pub open spec fn is_text_of(bytes: Seq<u8>, name: Seq<char>, kind: ErrorType, r: Result<&str, Error>) -> bool {
    match r {
        Ok(s) => vstd::utf8::valid_utf8(bytes) && text_bytes(s@) == bytes,
        Err(e) => !vstd::utf8::valid_utf8(bytes) && is_not_text(name, kind, e),
    }
}

/// Reads an argument that arrived as bytes as the text it has to be.
pub fn text_argument<'a>(bytes: &'a [u8], name: &str, kind: ErrorType) -> (r: Result<&'a str, Error>)
    ensures
        is_text_of(bytes@, name@, kind, r),
{
    match utf8_text(bytes) {
        Ok(s) => Ok(s),
        Err(cause) => {
            let mut msg = String::from_str(name);
            msg.append(" is not valid UTF8");
            Err(Error::new(msg, kind, Some(cause)))
        },
    }
}

/// The client behind a handle; a handle that points to nothing is refused.
pub fn client_handle<'a>(client: Option<&'a ETSI014Client>) -> (r: Result<&'a ETSI014Client, Error>)
    ensures
        match client {
            Some(c) => r == Ok::<&ETSI014Client, Error>(c),
            None => r matches Err(e) && is_null_handle(e),
        },
{
    match client {
        Some(c) => Ok(c),
        None => Err(
            Error::new(
                String::from_str("Null pointer passed to get_status"),
                ErrorType::InvalidArgument,
                None,
            ),
        ),
    }
}

/// The bytes of the zero-terminated string that hands an error to a caller:
/// the rendered error, or a fixed text where the rendered error holds a zero
/// byte itself.
pub open spec fn error_c_string(text: Seq<char>) -> Seq<u8> {
    if has_nul(text_bytes(text)) {
        text_bytes("Null byte in error string"@).push(0u8)
    } else {
        text_bytes(text).push(0u8)
    }
}

/// Lays an error out as a zero-terminated string.
pub fn create_error_cstr(s: Error) -> (r: Vec<u8>)
    ensures
        r@ == error_c_string(s.text()),
{
    let text = s.to_text();
    let mut r: Vec<u8> = Vec::new();
    match find_nul(text.as_str().as_bytes()) {
        Some(_) => {
            r.extend_from_slice("Null byte in error string".as_bytes());
        },
        None => {
            r.extend_from_slice(text.as_str().as_bytes());
        },
    }
    r.push(0);
    r
}

/// The four texts that a client is made from, in the order host, path of the
/// certificate, path of the private key, path of the root certificate.
///
/// The first argument that is no text is refused: the host as an invalid
/// host, a path as an invalid argument.
pub fn client_arguments<'a>(
    host: &'a [u8],
    cert_path: &'a [u8],
    key_path: &'a [u8],
    server_ca_path: &'a [u8],
) -> (r: Result<(&'a str, &'a str, &'a str, &'a str), Error>)
    ensures
        match r {
            Ok(texts) => {
                &&& is_text_of(host@, "Host"@, ErrorType::InvalidHost, Ok(texts.0))
                &&& is_text_of(cert_path@, "cert_path"@, ErrorType::InvalidArgument, Ok(texts.1))
                &&& is_text_of(key_path@, "key_path"@, ErrorType::InvalidArgument, Ok(texts.2))
                &&& is_text_of(
                    server_ca_path@,
                    "server_ca_path"@,
                    ErrorType::InvalidArgument,
                    Ok(texts.3),
                )
            },
            Err(e) => if !vstd::utf8::valid_utf8(host@) {
                is_not_text("Host"@, ErrorType::InvalidHost, e)
            } else if !vstd::utf8::valid_utf8(cert_path@) {
                is_not_text("cert_path"@, ErrorType::InvalidArgument, e)
            } else if !vstd::utf8::valid_utf8(key_path@) {
                is_not_text("key_path"@, ErrorType::InvalidArgument, e)
            } else {
                &&& !vstd::utf8::valid_utf8(server_ca_path@)
                &&& is_not_text("server_ca_path"@, ErrorType::InvalidArgument, e)
            },
        },
{
    let host = text_argument(host, "Host", ErrorType::InvalidHost)?;
    let cert_path = text_argument(cert_path, "cert_path", ErrorType::InvalidArgument)?;
    let key_path = text_argument(key_path, "key_path", ErrorType::InvalidArgument)?;
    let server_ca_path = text_argument(
        server_ca_path,
        "server_ca_path",
        ErrorType::InvalidArgument,
    )?;
    Ok((host, cert_path, key_path, server_ca_path))
}

/// `r` is what asking for a status through the boundary gives, before
/// anything is sent.
pub open spec fn is_status_call(
    client: Option<&ETSI014Client>,
    target_sae_id: Seq<u8>,
    r: Result<Call, Error>,
) -> bool {
    match client {
        None => r matches Err(e) && is_null_handle(e),
        Some(c) => if !vstd::utf8::valid_utf8(target_sae_id) {
            r matches Err(e) && is_not_text("target_sae_id"@, ErrorType::InvalidArgument, e)
        } else {
            exists|target: Seq<char>|
                text_bytes(target) == target_sae_id && c.is_request_outcome(
                    target,
                    "status"@,
                    None,
                    r,
                )
        },
    }
}

/// The request for a status, for a caller that holds a handle and bytes.
pub fn status_call(client: Option<&ETSI014Client>, target_sae_id: &[u8]) -> (r: Result<Call, Error>)
    ensures
        is_status_call(client, target_sae_id@, r),
{
    let client = client_handle(client)?;
    let target = text_argument(target_sae_id, "target_sae_id", ErrorType::InvalidArgument)?;
    let r = client.status_request(target);
    assert(text_bytes(target@) == target_sae_id@ && client.is_request_outcome(
        target@,
        "status"@,
        None,
        r,
    ));
    r
}

/// The status of an answer, laid out for the caller.
pub fn status_answer(outcome: &Exchange, call: &Call) -> (r: Result<CStatus, Error>)
    ensures
        match r {
            Ok(c) => exists|s: Status|
                {
                    &&& is_status_outcome(
                        *outcome,
                        request_rendered(call.request),
                        call.body(),
                        Ok(s),
                    )
                    &&& status_fits(s)
                    &&& is_status_layout(s, c)
                },
            Err(e) => {
                ||| is_status_outcome(
                    *outcome,
                    request_rendered(call.request),
                    call.body(),
                    Err(e),
                )
                ||| exists|s: Status|
                    {
                        &&& is_status_outcome(
                            *outcome,
                            request_rendered(call.request),
                            call.body(),
                            Ok(s),
                        )
                        &&& !status_fits(s)
                        &&& is_status_failure(s, e)
                    }
            },
        },
{
    let s = read_status(outcome, call)?;
    let ghost read = s;
    match marshal_status(s) {
        Ok(c) => {
            assert(is_status_outcome(
                *outcome,
                request_rendered(call.request),
                call.body(),
                Ok(read),
            ) && status_fits(read) && is_status_layout(read, c));
            Ok(c)
        },
        Err(e) => {
            assert(is_status_outcome(
                *outcome,
                request_rendered(call.request),
                call.body(),
                Ok(read),
            ) && !status_fits(read) && is_status_failure(read, e));
            Err(e)
        },
    }
}

/// `e` refuses a request that names further applications, which the
/// boundary has no way to take.
pub open spec fn is_not_implemented(e: Error) -> bool {
    &&& e.kind == ErrorType::InvalidArgument
    &&& e.msg@ == "additional_target_sae_ids not yet implemented in c bindings"@
    &&& e.source is None
}

/// `r` is what asking for new keys through the boundary gives, before
/// anything is sent.
pub open spec fn is_keys_call(
    client: Option<&ETSI014Client>,
    key_size_bits: u32,
    target_sae_id: Seq<u8>,
    additional_target_sae_ids_size: usize,
    amount_of_keys: u32,
    r: Result<Call, Error>,
) -> bool {
    if additional_target_sae_ids_size != 0 {
        r matches Err(e) && is_not_implemented(e)
    } else {
        is_plain_keys_call(client, key_size_bits, target_sae_id, amount_of_keys, r)
    }
}

/// `r` is what asking for new keys for one application alone gives, before
/// anything is sent.
pub open spec fn is_plain_keys_call(
    client: Option<&ETSI014Client>,
    key_size_bits: u32,
    target_sae_id: Seq<u8>,
    amount_of_keys: u32,
    r: Result<Call, Error>,
) -> bool {
    match client {
        None => r matches Err(e) && is_null_handle(e),
        Some(c) => if !vstd::utf8::valid_utf8(target_sae_id) {
            r matches Err(e) && is_not_text("target_sae_id"@, ErrorType::InvalidArgument, e)
        } else {
            exists|target: Seq<char>|
                text_bytes(target) == target_sae_id && c.is_request_outcome(
                    target,
                    "enc_keys"@,
                    Some(key_request_text(amount_of_keys, Some(key_size_bits), Seq::empty(), None)),
                    r,
                )
        },
    }
}

/// The request for new keys, for a caller that holds a handle and bytes.
///
/// Further applications that may fetch the keys cannot be named through the
/// boundary: a request that names any is refused, and nothing is sent.
pub fn keys_call(
    client: Option<&ETSI014Client>,
    key_size_bits: u32,
    target_sae_id: &[u8],
    additional_target_sae_ids_size: usize,
    amount_of_keys: u32,
) -> (r: Result<Call, Error>)
    ensures
        is_keys_call(
            client,
            key_size_bits,
            target_sae_id@,
            additional_target_sae_ids_size,
            amount_of_keys,
            r,
        ),
{
    if additional_target_sae_ids_size != 0 {
        return Err(
            Error::new(
                String::from_str("additional_target_sae_ids not yet implemented in c bindings"),
                ErrorType::InvalidArgument,
                None,
            ),
        );
    }
    let client = client_handle(client)?;
    let target = text_argument(target_sae_id, "target_sae_id", ErrorType::InvalidArgument)?;
    let nobody: [&str; 0] = [];
    let r = client.keys_request(key_size_bits, target, nobody.as_slice(), amount_of_keys);
    assert(nobody@ =~= Seq::<&str>::empty());
    assert(text_bytes(target@) == target_sae_id@ && client.is_request_outcome(
        target@,
        "enc_keys"@,
        Some(key_request_text(amount_of_keys, Some(key_size_bits), Seq::empty(), None)),
        r,
    ));
    r
}

/// The keys of an answer, laid out for a caller that made room for
/// `expected` of them. Where anything is wrong, no key is laid out.
pub fn keys_answer(outcome: &Exchange, call: &Call, expected: usize) -> (r: Result<Vec<CKey>, Error>)
    ensures
        match r {
            Ok(ckeys) => exists|keys: Vec<(String, SecretBytes)>|
                {
                    &&& is_keys_outcome(
                        *outcome,
                        request_rendered(call.request),
                        call.body(),
                        expected as nat,
                        Ok(keys),
                    )
                    &&& are_key_layouts(keys@, ckeys@)
                },
            Err(e) => {
                ||| is_keys_outcome(
                    *outcome,
                    request_rendered(call.request),
                    call.body(),
                    expected as nat,
                    Err(e),
                )
                ||| exists|keys: Vec<(String, SecretBytes)>|
                    {
                        &&& is_keys_outcome(
                            *outcome,
                            request_rendered(call.request),
                            call.body(),
                            expected as nat,
                            Ok(keys),
                        )
                        &&& is_keys_failure(keys@, expected as nat, e)
                    }
            },
        },
{
    let keys = read_keys(outcome, call, expected)?;
    let ghost read = keys;
    match marshal_keys(keys, expected) {
        Ok(ckeys) => {
            assert(is_keys_outcome(
                *outcome,
                request_rendered(call.request),
                call.body(),
                expected as nat,
                Ok(read),
            ) && are_key_layouts(read@, ckeys@));
            Ok(ckeys)
        },
        Err(e) => {
            assert(is_keys_outcome(
                *outcome,
                request_rendered(call.request),
                call.body(),
                expected as nat,
                Ok(read),
            ) && is_keys_failure(read@, expected as nat, e));
            Err(e)
        },
    }
}

/// The name of the identifier at place `i` in messages.
pub open spec fn id_name(i: nat) -> Seq<char> {
    "SAE ID "@ + decimal_digits(i)
}

/// `i` is the place of the first of `key_ids` that is no text.
pub open spec fn is_first_not_text(key_ids: Seq<&[u8]>, i: int) -> bool {
    &&& 0 <= i < key_ids.len()
    &&& !vstd::utf8::valid_utf8(key_ids[i]@)
    &&& forall|j: int| 0 <= j < i ==> vstd::utf8::valid_utf8((#[trigger] key_ids[j])@)
}

/// `ids` are the texts that `key_ids` hold, one for one.
pub open spec fn are_texts_of(key_ids: Seq<&[u8]>, ids: Seq<&str>) -> bool {
    &&& ids.len() == key_ids.len()
    &&& forall|i: int| 0 <= i < key_ids.len() ==> text_bytes((#[trigger] ids[i])@) == key_ids[i]@
}

/// Reads a list of identifiers that arrived as bytes as the texts they have
/// to be. The first that is no text is refused, named by its place.
pub fn id_arguments<'a>(key_ids: &[&'a [u8]]) -> (r: Result<Vec<&'a str>, Error>)
    ensures
        match r {
            Ok(ids) => are_texts_of(key_ids@, ids@),
            Err(e) => exists|i: int|
                is_first_not_text(key_ids@, i) && is_not_text(
                    id_name(i as nat),
                    ErrorType::InvalidArgument,
                    e,
                ),
        },
{
    let mut ids: Vec<&'a str> = Vec::with_capacity(key_ids.len());
    let mut i: usize = 0;
    while i < key_ids.len()
        invariant
            i <= key_ids.len(),
            ids@.len() == i,
            forall|j: int| 0 <= j < i ==> text_bytes((#[trigger] ids@[j])@) == key_ids@[j]@,
            forall|j: int| 0 <= j < i ==> vstd::utf8::valid_utf8((#[trigger] key_ids@[j])@),
        decreases key_ids.len() - i,
    {
        let mut name = String::from_str("SAE ID ");
        name.append(decimal_text(i as u128).as_str());
        match text_argument(key_ids[i], name.as_str(), ErrorType::InvalidArgument) {
            Ok(id) => {
                ids.push(id);
            },
            Err(e) => {
                assert(is_first_not_text(key_ids@, i as int));
                return Err(e);
            },
        }
        i += 1;
    }
    Ok(ids)
}

/// `r` is what asking for keys by identifier through the boundary gives,
/// before anything is sent.
pub open spec fn is_keys_by_ids_call(
    client: Option<&ETSI014Client>,
    target_sae_id: Seq<u8>,
    key_ids: Seq<&[u8]>,
    r: Result<Call, Error>,
) -> bool {
    match client {
        None => r matches Err(e) && is_null_handle(e),
        Some(c) => if !vstd::utf8::valid_utf8(target_sae_id) {
            r matches Err(e) && is_not_text("target_sae_id"@, ErrorType::InvalidArgument, e)
        } else if exists|i: int| is_first_not_text(key_ids, i) {
            r matches Err(e) && exists|i: int|
                is_first_not_text(key_ids, i) && is_not_text(
                    id_name(i as nat),
                    ErrorType::InvalidArgument,
                    e,
                )
        } else {
            exists|target: Seq<char>, ids: Seq<&str>|
                {
                    &&& text_bytes(target) == target_sae_id
                    &&& are_texts_of(key_ids, ids)
                    &&& c.is_request_outcome(
                        target,
                        "dec_keys"@,
                        Some(keys_by_ids_text(text_views(ids))),
                        r,
                    )
                }
        },
    }
}

/// The request for keys by identifier, for a caller that holds a handle and
/// bytes.
pub fn keys_by_ids_call(
    client: Option<&ETSI014Client>,
    target_sae_id: &[u8],
    key_ids: &[&[u8]],
) -> (r: Result<Call, Error>)
    ensures
        is_keys_by_ids_call(client, target_sae_id@, key_ids@, r),
{
    let client = client_handle(client)?;
    let target = text_argument(target_sae_id, "target_sae_id", ErrorType::InvalidArgument)?;
    let ids = match id_arguments(key_ids) {
        Ok(ids) => ids,
        Err(e) => {
            return Err(e);
        },
    };
    assert(!exists|i: int| is_first_not_text(key_ids@, i)) by {
        if exists|i: int| is_first_not_text(key_ids@, i) {
            let i = choose|i: int| is_first_not_text(key_ids@, i);
            assert(text_bytes(ids@[i]@) == key_ids@[i]@);
            vstd::utf8::encode_utf8_valid_utf8(ids@[i]@);
        }
    }
    let r = client.keys_by_ids_request(target, ids.as_slice());
    assert(text_bytes(target@) == target_sae_id@ && are_texts_of(key_ids@, ids@)
        && client.is_request_outcome(
        target@,
        "dec_keys"@,
        Some(keys_by_ids_text(text_views(ids@))),
        r,
    ));
    r
}

} // verus!
