//! The session ledger: the refresh tokens that are in force and the password-reset tokens
//! that were handed out. A refresh token is good while the ledger holds it and it has not
//! expired; a reset token is good once, before it expires.

use vstd::prelude::*;
use crate::search::{first_match, has_match, lemma_first_index_is};
use crate::text::same_text;

verus! {

/// How long a password-reset token can be used: one hour, in seconds.
pub const RESET_TOKEN_TTL: i64 = 3_600;

/// A refresh token in force: the bearer string, the account it belongs to and the instant
/// at which it expires.
#[derive(Debug)]
pub struct RefreshToken {
    pub user_id: i64,
    pub token: String,
    pub expires_at: i64,
}

/// The mathematical value of a [`RefreshToken`].
pub struct RefreshTokenView {
    pub user_id: i64,
    pub token: Seq<char>,
    pub expires_at: i64,
}

impl View for RefreshToken {
    type V = RefreshTokenView;

    open spec fn view(&self) -> RefreshTokenView {
        RefreshTokenView { user_id: self.user_id, token: self.token@, expires_at: self.expires_at }
    }
}

/// A password-reset token: the token string, the account it belongs to, the instant at
/// which it expires and whether it has been used.
#[derive(Debug)]
pub struct PasswordResetToken {
    pub user_id: i64,
    pub token: String,
    pub expires_at: i64,
    pub used: bool,
}

/// The mathematical value of a [`PasswordResetToken`].
pub struct PasswordResetTokenView {
    pub user_id: i64,
    pub token: Seq<char>,
    pub expires_at: i64,
    pub used: bool,
}

impl View for PasswordResetToken {
    type V = PasswordResetTokenView;

    open spec fn view(&self) -> PasswordResetTokenView {
        PasswordResetTokenView {
            user_id: self.user_id,
            token: self.token@,
            expires_at: self.expires_at,
            used: self.used,
        }
    }
}

/// The mathematical value of each refresh token of a list.
pub open spec fn refresh_tokens_view(rows: Seq<RefreshToken>) -> Seq<RefreshTokenView> {
    rows.map_values(|r: RefreshToken| r@)
}

/// The mathematical value of each reset token of a list.
pub open spec fn reset_tokens_view(rows: Seq<PasswordResetToken>) -> Seq<PasswordResetTokenView> {
    rows.map_values(|r: PasswordResetToken| r@)
}

/// The condition "is this refresh token".
pub open spec fn refresh_token_is(token: Seq<char>) -> spec_fn(RefreshTokenView) -> bool {
    |r: RefreshTokenView| r.token == token
}

/// The condition "is this refresh token and has not expired at the instant `now`".
pub open spec fn live_refresh_token(token: Seq<char>, now: i64) -> spec_fn(
    RefreshTokenView,
) -> bool {
    |r: RefreshTokenView| r.token == token && now < r.expires_at
}

/// The condition "is another refresh token than this".
pub open spec fn other_refresh_token(token: Seq<char>) -> spec_fn(RefreshTokenView) -> bool {
    |r: RefreshTokenView| r.token != token
}

/// The condition "belongs to another account than this".
pub open spec fn session_of_other(user_id: i64) -> spec_fn(RefreshTokenView) -> bool {
    |r: RefreshTokenView| r.user_id != user_id
}

/// What rotation does to a row: the row of the old token gets the new token and expiry,
/// any other row stays as it is.
pub open spec fn rotation(old_token: Seq<char>, new_token: Seq<char>, expires_at: i64) -> spec_fn(
    RefreshTokenView,
) -> RefreshTokenView {
    |r: RefreshTokenView|
        if r.token == old_token {
            RefreshTokenView { token: new_token, expires_at, ..r }
        } else {
            r
        }
}

/// The condition "is this reset token, unused".
pub open spec fn unused_reset_token(token: Seq<char>) -> spec_fn(PasswordResetTokenView) -> bool {
    |r: PasswordResetTokenView| r.token == token && !r.used
}

/// The condition "is this reset token, unused and not expired at the instant `now`".
pub open spec fn usable_reset_token(token: Seq<char>, now: i64) -> spec_fn(
    PasswordResetTokenView,
) -> bool {
    |r: PasswordResetTokenView| r.token == token && !r.used && now < r.expires_at
}

/// The condition "is a reset token of another account than this".
pub open spec fn reset_token_of_other(user_id: i64) -> spec_fn(PasswordResetTokenView) -> bool {
    |r: PasswordResetTokenView| r.user_id != user_id
}

/// What using a reset token does to a row: the row of that token counts as used, any
/// other row stays as it is.
pub open spec fn consumption(token: Seq<char>) -> spec_fn(
    PasswordResetTokenView,
) -> PasswordResetTokenView {
    |r: PasswordResetTokenView|
        if r.token == token {
            PasswordResetTokenView { used: true, ..r }
        } else {
            r
        }
}

/// The mathematical value of a [`SessionLedger`]: its two tables, each in the order in
/// which the rows were added.
pub struct SessionLedgerView {
    pub refresh_tokens: Seq<RefreshTokenView>,
    pub reset_tokens: Seq<PasswordResetTokenView>,
}

impl SessionLedgerView {
    /// The ledger without rows.
    pub open spec fn empty() -> SessionLedgerView {
        SessionLedgerView { refresh_tokens: Seq::empty(), reset_tokens: Seq::empty() }
    }

    /// Whether the ledger holds this refresh token, expired or not.
    pub open spec fn holds_refresh_token(self, token: Seq<char>) -> bool {
        has_match(self.refresh_tokens, refresh_token_is(token))
    }

    /// Whether the ledger holds this refresh token and it has not expired at `now`.
    pub open spec fn has_live_refresh_token(self, token: Seq<char>, now: i64) -> bool {
        has_match(self.refresh_tokens, live_refresh_token(token, now))
    }

    /// The ledger with one more refresh token.
    pub open spec fn with_refresh_token(
        self,
        user_id: i64,
        token: Seq<char>,
        expires_at: i64,
    ) -> SessionLedgerView {
        SessionLedgerView {
            refresh_tokens: self.refresh_tokens.push(
                RefreshTokenView { user_id, token, expires_at },
            ),
            ..self
        }
    }

    /// The ledger without the rows of this refresh token.
    pub open spec fn without_refresh_token(self, token: Seq<char>) -> SessionLedgerView {
        SessionLedgerView {
            refresh_tokens: self.refresh_tokens.filter(other_refresh_token(token)),
            ..self
        }
    }

    /// The ledger after a rotation: the rows of the old token hold the new token and its
    /// expiry instead. No row is added.
    pub open spec fn with_rotated(
        self,
        old_token: Seq<char>,
        new_token: Seq<char>,
        expires_at: i64,
    ) -> SessionLedgerView {
        SessionLedgerView {
            refresh_tokens: self.refresh_tokens.map_values(
                rotation(old_token, new_token, expires_at),
            ),
            ..self
        }
    }

    /// The ledger without the refresh tokens of an account.
    pub open spec fn without_sessions_of(self, user_id: i64) -> SessionLedgerView {
        SessionLedgerView {
            refresh_tokens: self.refresh_tokens.filter(session_of_other(user_id)),
            ..self
        }
    }

    /// Whether the ledger holds this reset token in an unused row, expired or not.
    pub open spec fn has_unused_reset_token(self, token: Seq<char>) -> bool {
        has_match(self.reset_tokens, unused_reset_token(token))
    }

    /// The first row of this reset token that is unused and has not expired at `now`.
    pub open spec fn usable_reset_token(self, token: Seq<char>, now: i64) -> Option<
        PasswordResetTokenView,
    > {
        first_match(self.reset_tokens, usable_reset_token(token, now))
    }

    /// The ledger with one more reset token, not yet used.
    pub open spec fn with_reset_token(
        self,
        user_id: i64,
        token: Seq<char>,
        expires_at: i64,
    ) -> SessionLedgerView {
        SessionLedgerView {
            reset_tokens: self.reset_tokens.push(
                PasswordResetTokenView { user_id, token, expires_at, used: false },
            ),
            ..self
        }
    }

    /// The ledger after this reset token was used.
    pub open spec fn with_reset_token_used(self, token: Seq<char>) -> SessionLedgerView {
        SessionLedgerView { reset_tokens: self.reset_tokens.map_values(consumption(token)), ..self }
    }

    /// The ledger without any row of an account.
    pub open spec fn without_user(self, user_id: i64) -> SessionLedgerView {
        SessionLedgerView {
            refresh_tokens: self.refresh_tokens.filter(session_of_other(user_id)),
            reset_tokens: self.reset_tokens.filter(reset_token_of_other(user_id)),
        }
    }
}

/// The refresh tokens in force and the reset tokens handed out.
pub struct SessionLedger {
    refresh_tokens: Vec<RefreshToken>,
    reset_tokens: Vec<PasswordResetToken>,
}

impl View for SessionLedger {
    type V = SessionLedgerView;

    closed spec fn view(&self) -> SessionLedgerView {
        SessionLedgerView {
            refresh_tokens: refresh_tokens_view(self.refresh_tokens@),
            reset_tokens: reset_tokens_view(self.reset_tokens@),
        }
    }
}

impl SessionLedger {
    /// A ledger without rows.
    pub fn new() -> (ledger: SessionLedger)
        ensures
            ledger@ == SessionLedgerView::empty(),
    {
        let ledger = SessionLedger { refresh_tokens: Vec::new(), reset_tokens: Vec::new() };
        assert(ledger@.refresh_tokens =~= Seq::empty());
        assert(ledger@.reset_tokens =~= Seq::empty());
        ledger
    }

    /// A ledger made of rows that were kept elsewhere.
    pub fn restore(
        refresh_tokens: Vec<RefreshToken>,
        reset_tokens: Vec<PasswordResetToken>,
    ) -> (ledger: SessionLedger)
        ensures
            ledger@ == (SessionLedgerView {
                refresh_tokens: refresh_tokens_view(refresh_tokens@),
                reset_tokens: reset_tokens_view(reset_tokens@),
            }),
    {
        SessionLedger { refresh_tokens, reset_tokens }
    }

    /// The refresh tokens in force, in the order in which they were recorded.
    pub fn refresh_tokens(&self) -> (rows: &Vec<RefreshToken>)
        ensures
            refresh_tokens_view(rows@) == self@.refresh_tokens,
    {
        &self.refresh_tokens
    }

    /// The reset tokens handed out, in the order in which they were recorded.
    pub fn reset_tokens(&self) -> (rows: &Vec<PasswordResetToken>)
        ensures
            reset_tokens_view(rows@) == self@.reset_tokens,
    {
        &self.reset_tokens
    }

    /// Records a refresh token for an account.
    pub fn insert_refresh_token(&mut self, user_id: i64, token: String, expires_at: i64)
        ensures
            final(self)@ == old(self)@.with_refresh_token(user_id, token@, expires_at),
    {
        self.refresh_tokens.push(RefreshToken { user_id, token, expires_at });
        assert(self@.refresh_tokens =~= old(self)@.with_refresh_token(
            user_id,
            token@,
            expires_at,
        ).refresh_tokens);
    }

    /// Whether the ledger holds this refresh token and it has not expired at `now`.
    pub fn has_live_refresh_token(&self, token: &str, now: i64) -> (held: bool)
        ensures
            held == self@.has_live_refresh_token(token@, now),
    {
        let mut i: usize = 0;
        while i < self.refresh_tokens.len()
            invariant
                i <= self.refresh_tokens.len(),
                forall|j: int|
                    0 <= j < i ==> !live_refresh_token(token@, now)(
                        #[trigger] self@.refresh_tokens[j],
                    ),
            decreases self.refresh_tokens.len() - i,
        {
            if now < self.refresh_tokens[i].expires_at && same_text(
                self.refresh_tokens[i].token.as_str(),
                token,
            ) {
                assert(live_refresh_token(token@, now)(self@.refresh_tokens[i as int]));
                return true;
            }
            i += 1;
        }
        false
    }

    /// Forgets this refresh token: every row that holds it goes.
    pub fn remove_refresh_token(&mut self, token: &str)
        ensures
            final(self)@ == old(self)@.without_refresh_token(token@),
    {
        let mut rows: Vec<RefreshToken> = Vec::new();
        std::mem::swap(&mut self.refresh_tokens, &mut rows);
        let ghost all = refresh_tokens_view(rows@);
        let ghost keep = other_refresh_token(token@);
        let mut kept: Vec<RefreshToken> = Vec::new();
        for row in it: rows
            invariant
                all == refresh_tokens_view(it.seq()),
                keep == other_refresh_token(token@),
                refresh_tokens_view(kept@) =~= all.take(it.index() as int).filter(keep),
        {
            proof {
                let i = it.index() as int;
                assert(all.take(i + 1) =~= all.take(i).push(all[i]));
                all.take(i).lemma_filter_push(all[i], keep);
            }
            if !same_text(row.token.as_str(), token) {
                kept.push(row);
            }
        }
        assert(all.take(all.len() as int) =~= all);
        self.refresh_tokens = kept;
    }

    /// Rotates a refresh token: every row that holds the old token holds the new token
    /// and its expiry afterwards. No row is added, so what was handed out before is no
    /// longer in the ledger unless the two tokens are the same text.
    pub fn rotate_refresh_token(&mut self, old_token: &str, new_token: &str, expires_at: i64)
        ensures
            final(self)@ == old(self)@.with_rotated(old_token@, new_token@, expires_at),
    {
        let ghost rotate = rotation(old_token@, new_token@, expires_at);
        let ghost before = self@.refresh_tokens;
        let mut i: usize = 0;
        while i < self.refresh_tokens.len()
            invariant
                i <= self.refresh_tokens.len(),
                rotate == rotation(old_token@, new_token@, expires_at),
                self@.reset_tokens == old(self)@.reset_tokens,
                self@.refresh_tokens.len() == before.len(),
                before == old(self)@.refresh_tokens,
                forall|j: int| 0 <= j < i ==> self@.refresh_tokens[j] == rotate(before[j]),
                forall|j: int| i <= j < before.len() ==> self@.refresh_tokens[j] == before[j],
            decreases self.refresh_tokens.len() - i,
        {
            let ghost rows = self.refresh_tokens@;
            if same_text(self.refresh_tokens[i].token.as_str(), old_token) {
                self.refresh_tokens[i].token = String::from_str(new_token);
                self.refresh_tokens[i].expires_at = expires_at;
            }
            proof {
                // Only the current row can have changed in this step.
                assert forall|j: int| 0 <= j < i + 1 implies self@.refresh_tokens[j] == rotate(
                    before[j],
                ) by {
                    assert(refresh_tokens_view(rows)[j] == rows[j]@);
                }
                assert forall|j: int| i + 1 <= j < before.len() implies self@.refresh_tokens[j]
                    == before[j] by {}
            }
            i += 1;
        }
        assert(self@.refresh_tokens =~= before.map_values(rotate));
    }

    /// Forgets every refresh token of an account.
    pub fn revoke_sessions_of(&mut self, user_id: i64)
        ensures
            final(self)@ == old(self)@.without_sessions_of(user_id),
    {
        let mut rows: Vec<RefreshToken> = Vec::new();
        std::mem::swap(&mut self.refresh_tokens, &mut rows);
        let ghost all = refresh_tokens_view(rows@);
        let ghost keep = session_of_other(user_id);
        let mut kept: Vec<RefreshToken> = Vec::new();
        for row in it: rows
            invariant
                all == refresh_tokens_view(it.seq()),
                keep == session_of_other(user_id),
                refresh_tokens_view(kept@) =~= all.take(it.index() as int).filter(keep),
        {
            proof {
                let i = it.index() as int;
                assert(all.take(i + 1) =~= all.take(i).push(all[i]));
                all.take(i).lemma_filter_push(all[i], keep);
            }
            if row.user_id != user_id {
                kept.push(row);
            }
        }
        assert(all.take(all.len() as int) =~= all);
        self.refresh_tokens = kept;
    }

    /// Records a reset token for an account, not yet used.
    pub fn insert_reset_token(&mut self, user_id: i64, token: String, expires_at: i64)
        ensures
            final(self)@ == old(self)@.with_reset_token(user_id, token@, expires_at),
    {
        self.reset_tokens.push(PasswordResetToken { user_id, token, expires_at, used: false });
        assert(self@.reset_tokens =~= old(self)@.with_reset_token(
            user_id,
            token@,
            expires_at,
        ).reset_tokens);
    }

    /// The account of the first row of this reset token that is unused and has not
    /// expired at `now`.
    pub fn find_usable_reset_token(&self, token: &str, now: i64) -> (owner: Option<i64>)
        ensures
            match owner {
                Some(user_id) => self@.usable_reset_token(token@, now) matches Some(row)
                    && row.user_id == user_id,
                None => self@.usable_reset_token(token@, now) is None,
            },
    {
        let mut i: usize = 0;
        while i < self.reset_tokens.len()
            invariant
                i <= self.reset_tokens.len(),
                forall|j: int|
                    0 <= j < i ==> !usable_reset_token(token@, now)(
                        #[trigger] self@.reset_tokens[j],
                    ),
            decreases self.reset_tokens.len() - i,
        {
            if !self.reset_tokens[i].used && now < self.reset_tokens[i].expires_at && same_text(
                self.reset_tokens[i].token.as_str(),
                token,
            ) {
                proof {
                    lemma_first_index_is(
                        self@.reset_tokens,
                        usable_reset_token(token@, now),
                        i as int,
                    );
                }
                return Some(self.reset_tokens[i].user_id);
            }
            i += 1;
        }
        None
    }

    /// Marks this reset token as used, in every row that holds it.
    pub fn mark_reset_token_used(&mut self, token: &str)
        ensures
            final(self)@ == old(self)@.with_reset_token_used(token@),
    {
        let ghost consume = consumption(token@);
        let ghost before = self@.reset_tokens;
        let mut i: usize = 0;
        while i < self.reset_tokens.len()
            invariant
                i <= self.reset_tokens.len(),
                consume == consumption(token@),
                self@.refresh_tokens == old(self)@.refresh_tokens,
                self@.reset_tokens.len() == before.len(),
                before == old(self)@.reset_tokens,
                forall|j: int| 0 <= j < i ==> self@.reset_tokens[j] == consume(before[j]),
                forall|j: int| i <= j < before.len() ==> self@.reset_tokens[j] == before[j],
            decreases self.reset_tokens.len() - i,
        {
            let ghost rows = self.reset_tokens@;
            if same_text(self.reset_tokens[i].token.as_str(), token) {
                self.reset_tokens[i].used = true;
            }
            proof {
                // Only the current row can have changed in this step.
                assert forall|j: int| 0 <= j < i + 1 implies self@.reset_tokens[j] == consume(
                    before[j],
                ) by {
                    assert(reset_tokens_view(rows)[j] == rows[j]@);
                }
                assert forall|j: int| i + 1 <= j < before.len() implies self@.reset_tokens[j]
                    == before[j] by {}
            }
            i += 1;
        }
        assert(self@.reset_tokens =~= before.map_values(consume));
    }

    /// Forgets every row of an account, in both tables.
    pub fn remove_user(&mut self, user_id: i64)
        ensures
            final(self)@ == old(self)@.without_user(user_id),
    {
        self.revoke_sessions_of(user_id);
        let mut rows: Vec<PasswordResetToken> = Vec::new();
        std::mem::swap(&mut self.reset_tokens, &mut rows);
        let ghost all = reset_tokens_view(rows@);
        let ghost keep = reset_token_of_other(user_id);
        let mut kept: Vec<PasswordResetToken> = Vec::new();
        for row in it: rows
            invariant
                all == reset_tokens_view(it.seq()),
                keep == reset_token_of_other(user_id),
                reset_tokens_view(kept@) =~= all.take(it.index() as int).filter(keep),
        {
            proof {
                let i = it.index() as int;
                assert(all.take(i + 1) =~= all.take(i).push(all[i]));
                all.take(i).lemma_filter_push(all[i], keep);
            }
            if row.user_id != user_id {
                kept.push(row);
            }
        }
        assert(all.take(all.len() as int) =~= all);
        self.reset_tokens = kept;
    }
}

} // verus!
