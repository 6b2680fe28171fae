//! Tokens and the store that issues, persists and looks them up.
//!
//! A token is an opaque string bound to a namespace and an owning entity (a
//! "foreign id"). The store keeps rows of the `tokens` relation in insertion
//! order and offers four operations: create (`save`), read (`lookup`),
//! read-or-create (`lookup_or_new`) and an existence check (`token_exists`).
//! Their failure policy is deliberately asymmetric: only `lookup` surfaces a
//! backing-store failure; `save` and `token_exists` degrade to a default.

use vstd::prelude::*;

use crate::error::StoreError;
use crate::genid::generate_token;
use crate::genid::token_format;

verus! {

/// Classifies what a token is used for. The set is closed and each variant has
/// a numerically stable code, for compatibility with persisted rows.
#[derive(Debug, Clone, Copy, PartialEq, Eq, Structural)]
pub enum Namespace {
    Unknown,
    Auth,
    InviteNumber,
}

impl Namespace {
    /// The stable integer code under which this namespace is persisted.
    pub open spec fn spec_code(self) -> i32 {
        match self {
            Namespace::Unknown => 0,
            Namespace::Auth => 110,
            Namespace::InviteNumber => 100,
        }
    }

    /// Encodes the namespace as its stable integer code.
    pub fn to_code(self) -> (c: i32)
        ensures
            c == self.spec_code(),
    {
        match self {
            Namespace::Unknown => 0,
            Namespace::Auth => 110,
            Namespace::InviteNumber => 100,
        }
    }

    /// The namespace a stable integer code stands for, if any.
    pub open spec fn spec_from_code(c: i32) -> Option<Namespace> {
        if c == 0 {
            Some(Namespace::Unknown)
        } else if c == 110 {
            Some(Namespace::Auth)
        } else if c == 100 {
            Some(Namespace::InviteNumber)
        } else {
            None
        }
    }

    /// Decodes a stable integer code back into a namespace; unknown codes are
    /// rejected rather than mapped to a default.
    pub fn from_code(c: i32) -> (r: Option<Namespace>)
        ensures
            r == Namespace::spec_from_code(c),
    {
        if c == 0 {
            Some(Namespace::Unknown)
        } else if c == 110 {
            Some(Namespace::Auth)
        } else if c == 100 {
            Some(Namespace::InviteNumber)
        } else {
            None
        }
    }
}

impl Default for Namespace {
    fn default() -> (r: Self)
        ensures
            r == Namespace::Unknown,
    {
        Namespace::Unknown
    }
}

/// Law: the code mapping is bidirectional — decoding the code of any namespace
/// yields that namespace back.
pub proof fn lemma_code_round_trip(ns: Namespace)
    ensures
        Namespace::spec_from_code(ns.spec_code()) == Some(ns),
{
}

/// One row of the `tokens` relation.
pub struct Token {
    pub namespace: Namespace,
    pub foreign_id: u32,
    pub token: String,
    pub timestamp: i64,
}

/// The mathematical model of one row: the same fields, with the token as a
/// character sequence.
pub struct TokenModel {
    pub namespace: Namespace,
    pub foreign_id: u32,
    pub token: Seq<char>,
    pub timestamp: i64,
}

impl View for Token {
    type V = TokenModel;

    open spec fn view(&self) -> TokenModel {
        TokenModel {
            namespace: self.namespace,
            foreign_id: self.foreign_id,
            token: self.token@,
            timestamp: self.timestamp,
        }
    }
}

/// Whether a row is bound to the given (namespace, foreign id) pair.
pub open spec fn row_has_pair(r: TokenModel, namespace: Namespace, foreign_id: u32) -> bool {
    r.namespace == namespace && r.foreign_id == foreign_id
}

/// Whether some row bound to the pair exists in the table.
pub open spec fn table_has_pair(
    rows: Seq<TokenModel>,
    namespace: Namespace,
    foreign_id: u32,
) -> bool {
    exists|i: int| 0 <= i < rows.len() && row_has_pair(#[trigger] rows[i], namespace, foreign_id)
}

/// The token the table yields for a pair: that of the most recently inserted
/// matching row, or nothing when no row matches. The backing relation puts no
/// uniqueness constraint on the pair, so several rows may match; which of them
/// a lookup yields is this store's explicit decision — the latest.
pub open spec fn table_lookup(
    rows: Seq<TokenModel>,
    namespace: Namespace,
    foreign_id: u32,
) -> Option<Seq<char>>
    decreases rows.len(),
{
    if rows.len() == 0 {
        None
    } else if row_has_pair(rows.last(), namespace, foreign_id) {
        Some(rows.last().token)
    } else {
        table_lookup(rows.drop_last(), namespace, foreign_id)
    }
}

/// Whether a row carries exactly the given (namespace, token) pair.
pub open spec fn row_has_token(r: TokenModel, namespace: Namespace, token: Seq<char>) -> bool {
    r.namespace == namespace && r.token == token
}

/// Whether some row with exactly the (namespace, token) pair exists.
pub open spec fn table_has_token(
    rows: Seq<TokenModel>,
    namespace: Namespace,
    token: Seq<char>,
) -> bool {
    exists|i: int| 0 <= i < rows.len() && row_has_token(#[trigger] rows[i], namespace, token)
}

/// The view of an optional token string.
pub open spec fn opt_token_view(t: Option<String>) -> Option<Seq<char>> {
    match t {
        Some(s) => Some(s@),
        None => None,
    }
}

/// Relies on `std::time::SystemTime::now`, measured from the Unix epoch in
/// whole seconds (zero if the clock reads before the epoch). Nothing is
/// promised of the value: it depends on when the call runs.
#[verifier::external_body]
fn unix_time_now() -> i64 {
    match std::time::SystemTime::now().duration_since(std::time::UNIX_EPOCH) {
        Ok(d) => d.as_secs() as i64,
        Err(_) => 0,
    }
}

/// The token store: the rows of the `tokens` relation in insertion order,
/// behind a connection that can be open or not. Every operation that touches
/// the table fails with `StoreError::SqlNoConnection` while the connection is
/// not open; which operations surface that failure differs by design.
pub struct TokenStore {
    rows: Vec<Token>,
    connected: bool,
}

impl TokenStore {
    /// The model of the rows now in the table, in insertion order.
    pub closed spec fn table(&self) -> Seq<TokenModel> {
        self.rows@.map_values(|t: Token| t@)
    }

    /// Whether the store has an open connection to its backing table.
    pub closed spec fn is_open(&self) -> bool {
        self.connected
    }

    /// Creates a store with an empty table and no open connection.
    pub fn new() -> (s: TokenStore)
        ensures
            !s.is_open(),
            s.table() == Seq::<TokenModel>::empty(),
    {
        let s = TokenStore { rows: Vec::new(), connected: false };
        proof {
            assert(s.table() =~= Seq::<TokenModel>::empty());
        }
        s
    }

    /// Opens the store's connection; opening an already open store fails and
    /// changes nothing.
    pub fn open(&mut self) -> (r: Result<(), StoreError>)
        ensures
            final(self).table() == old(self).table(),
            old(self).is_open() ==> final(self).is_open() && (r matches Err(e) && e is SqlAlreadyOpen),
            !old(self).is_open() ==> final(self).is_open() && r is Ok,
    {
        if self.connected {
            Err(StoreError::SqlAlreadyOpen)
        } else {
            self.connected = true;
            Ok(())
        }
    }

    /// Closes the store's connection; the table keeps its rows.
    pub fn close(&mut self)
        ensures
            final(self).table() == old(self).table(),
            !final(self).is_open(),
    {
        self.connected = false;
    }

    /// The inner fallible write of the two-tier write path: appends one row to
    /// the table, or reports the missing connection. `save` wraps this and
    /// discards the failure.
    pub fn insert(&mut self, row: Token) -> (r: Result<(), StoreError>)
        ensures
            final(self).is_open() == old(self).is_open(),
            old(self).is_open() ==> r is Ok && final(self).table() == old(self).table().push(
                row@,
            ),
            !old(self).is_open() ==> (r matches Err(e) && e is SqlNoConnection) && final(self).table() == old(self).table(),
    {
        if self.connected {
            let ghost before = self.rows@;
            self.rows.push(row);
            proof {
                assert(self.rows@ == before.push(row));
                assert(self.table() =~= old(self).table().push(row@));
            }
            Ok(())
        } else {
            Err(StoreError::SqlNoConnection)
        }
    }

    /// Creates a new token, attempts to persist it for the pair, and returns
    /// it. The write is best effort: a persistence failure is discarded, and
    /// the caller receives the freshly generated token anyway — it may then
    /// not be durably stored. The foreign id may be the sentinel `0`, meaning
    /// no specific owner.
    pub fn save(&mut self, namespace: Namespace, foreign_id: u32) -> (token: String)
        ensures
            token_format(token@),
            token@.len() > 0,
            final(self).is_open() == old(self).is_open(),
            old(self).is_open() ==> {
                &&& final(self).table().len() == old(self).table().len() + 1
                &&& final(self).table().drop_last() == old(self).table()
                &&& final(self).table().last().namespace == namespace
                &&& final(self).table().last().foreign_id == foreign_id
                &&& final(self).table().last().token == token@
            },
            !old(self).is_open() ==> final(self).table() == old(self).table(),
    {
        let token = generate_token();
        let timestamp = unix_time_now();
        let row = Token { namespace, foreign_id, token: token.clone(), timestamp };
        let _ = self.insert(row);
        proof {
            if old(self).is_open() {
                assert(self.table().drop_last() =~= old(self).table());
            }
        }
        token
    }

    /// Looks the pair's token up: nothing when no row matches, else the token
    /// of the most recently inserted matching row. A backing-store failure is
    /// surfaced to the caller, not swallowed.
    pub fn lookup(&self, namespace: Namespace, foreign_id: u32) -> (r: Result<
        Option<String>,
        StoreError,
    >)
        ensures
            self.is_open() ==> (r matches Ok(t) && opt_token_view(t) == table_lookup(
                self.table(),
                namespace,
                foreign_id,
            )),
            !self.is_open() ==> (r matches Err(e) && e is SqlNoConnection),
    {
        if !self.connected {
            return Err(StoreError::SqlNoConnection);
        }
        let mut found: Option<String> = None;
        let mut i: usize = 0;
        proof {
            assert(self.table().subrange(0, 0) =~= Seq::<TokenModel>::empty());
        }
        while i < self.rows.len()
            invariant
                i <= self.rows.len(),
                self.rows@.len() == self.table().len(),
                opt_token_view(found) == table_lookup(
                    self.table().subrange(0, i as int),
                    namespace,
                    foreign_id,
                ),
            decreases self.rows.len() - i,
        {
            let row = &self.rows[i];
            proof {
                assert(self.table().subrange(0, i as int + 1).drop_last() =~= self.table()
                    .subrange(0, i as int));
                assert(self.table().subrange(0, i as int + 1).last() == self.table()[i as int]);
                assert(self.table()[i as int] == self.rows@[i as int]@);
            }
            if row.namespace == namespace && row.foreign_id == foreign_id {
                found = Some(row.token.clone());
            }
            i = i + 1;
        }
        proof {
            assert(self.table().subrange(0, self.rows@.len() as int) =~= self.table());
        }
        Ok(found)
    }

    /// Returns the token on file for the pair, or creates and saves a new one.
    /// A lookup failure is treated as "not found" and not surfaced: the call
    /// falls through to the best-effort `save`.
    ///
    /// This read-then-write is not atomic: two racing callers for the same
    /// pair can both miss and both insert, leaving two valid tokens for one
    /// logical slot. The caller accepts that, or serializes its calls.
    pub fn lookup_or_new(&mut self, namespace: Namespace, foreign_id: u32) -> (token: String)
        ensures
            final(self).is_open() == old(self).is_open(),
            old(self).is_open() && table_lookup(old(self).table(), namespace, foreign_id)
                is Some ==> Some(token@) == table_lookup(
                old(self).table(),
                namespace,
                foreign_id,
            ) && final(self).table() == old(self).table(),
            old(self).is_open() && table_lookup(old(self).table(), namespace, foreign_id)
                is None ==> {
                &&& token_format(token@)
                &&& final(self).table().len() == old(self).table().len() + 1
                &&& final(self).table().drop_last() == old(self).table()
                &&& final(self).table().last().namespace == namespace
                &&& final(self).table().last().foreign_id == foreign_id
                &&& final(self).table().last().token == token@
            },
            !old(self).is_open() ==> token_format(token@) && final(self).table() == old(self).table(),
    {
        match self.lookup(namespace, foreign_id) {
            Ok(Some(token)) => token,
            _ => self.save(namespace, foreign_id),
        }
    }

    /// Whether a row with exactly this (namespace, token) pair exists. On a
    /// backing-store failure the answer is `false`: "absent" and "errored"
    /// are indistinguishable to the caller by design.
    pub fn token_exists(&self, namespace: Namespace, token: &str) -> (r: bool)
        ensures
            r == (self.is_open() && table_has_token(self.table(), namespace, token@)),
    {
        if !self.connected {
            return false;
        }
        let tok: String = token.to_owned();
        let mut count: usize = 0;
        let mut i: usize = 0;
        while i < self.rows.len()
            invariant
                i <= self.rows.len(),
                self.rows@.len() == self.table().len(),
                tok@ == token@,
                count <= i,
                (count > 0) == (exists|j: int|
                    0 <= j < i && row_has_token(#[trigger] self.table()[j], namespace, token@)),
            decreases self.rows.len() - i,
        {
            let row = &self.rows[i];
            proof {
                assert(self.table()[i as int] == self.rows@[i as int]@);
            }
            let same_token = row.token == tok;
            if row.namespace == namespace && same_token {
                count = count + 1;
                proof {
                    assert(row_has_token(self.table()[i as int], namespace, token@));
                }
            }
            i = i + 1;
        }
        count > 0
    }
}

/// Law: a lookup yields no token exactly when no row bound to the pair exists.
pub proof fn lemma_lookup_none_iff_absent(
    rows: Seq<TokenModel>,
    namespace: Namespace,
    foreign_id: u32,
)
    ensures
        table_lookup(rows, namespace, foreign_id) is None <==> !table_has_pair(
            rows,
            namespace,
            foreign_id,
        ),
    decreases rows.len(),
{
    if rows.len() == 0 {
    } else if row_has_pair(rows.last(), namespace, foreign_id) {
        assert(row_has_pair(rows[rows.len() - 1], namespace, foreign_id));
    } else {
        lemma_lookup_none_iff_absent(rows.drop_last(), namespace, foreign_id);
        if table_has_pair(rows, namespace, foreign_id) {
            let i = choose|i: int|
                0 <= i < rows.len() && row_has_pair(#[trigger] rows[i], namespace, foreign_id);
            assert(i < rows.len() - 1);
            assert(row_has_pair(rows.drop_last()[i], namespace, foreign_id));
        }
        if table_has_pair(rows.drop_last(), namespace, foreign_id) {
            let i = choose|i: int|
                0 <= i < rows.drop_last().len() && row_has_pair(
                    #[trigger] rows.drop_last()[i],
                    namespace,
                    foreign_id,
                );
            assert(row_has_pair(rows[i], namespace, foreign_id));
        }
    }
}

/// Law: after a durable save — the table gained exactly one row, bound to the
/// pair and carrying the returned token — a lookup for the pair yields exactly
/// that token.
pub proof fn lemma_save_then_lookup(
    rows0: Seq<TokenModel>,
    rows1: Seq<TokenModel>,
    namespace: Namespace,
    foreign_id: u32,
    token: Seq<char>,
)
    requires
        rows1.len() == rows0.len() + 1,
        rows1.drop_last() == rows0,
        rows1.last().namespace == namespace,
        rows1.last().foreign_id == foreign_id,
        rows1.last().token == token,
    ensures
        table_lookup(rows1, namespace, foreign_id) == Some(token),
{
}

/// Law: after a durable save, the new row's (namespace, token) pair is on
/// file, so an existence check for exactly that pair answers true.
pub proof fn lemma_save_then_exists(
    rows1: Seq<TokenModel>,
    namespace: Namespace,
    token: Seq<char>,
)
    requires
        rows1.len() > 0,
        rows1.last().namespace == namespace,
        rows1.last().token == token,
    ensures
        table_has_token(rows1, namespace, token),
{
    assert(row_has_token(rows1[rows1.len() - 1], namespace, token));
}

/// Law: `lookup_or_new` is idempotent under sequential, non-racing use with a
/// durable first write. The first call leaves the table mapping the pair to
/// the token it returned — whether it found that token or saved it fresh — so
/// a second call with no intervening writes yields the same token and writes
/// nothing.
pub proof fn lemma_lookup_or_new_idempotent(
    rows0: Seq<TokenModel>,
    rows1: Seq<TokenModel>,
    namespace: Namespace,
    foreign_id: u32,
    token: Seq<char>,
)
    requires
        match table_lookup(rows0, namespace, foreign_id) {
            Some(t) => token == t && rows1 == rows0,
            None => {
                &&& rows1.len() == rows0.len() + 1
                &&& rows1.drop_last() == rows0
                &&& rows1.last().namespace == namespace
                &&& rows1.last().foreign_id == foreign_id
                &&& rows1.last().token == token
            },
        },
    ensures
        table_lookup(rows1, namespace, foreign_id) == Some(token),
{
    match table_lookup(rows0, namespace, foreign_id) {
        Some(t) => {},
        None => {
            lemma_save_then_lookup(rows0, rows1, namespace, foreign_id, token);
        },
    }
}

} // verus!
