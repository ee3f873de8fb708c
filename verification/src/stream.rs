//! A cursor over a fixed sequence of tokens.
//!
//! The stream starts in front of its first token. Each `advance` moves it to
//! the next token, or past the end once and for all. A token can be read or
//! rewritten only while the cursor stands on one.

use crate::token::{views, Token, TokenView};
use vstd::prelude::*;

verus! {

/// Where a stream stands.
#[derive(Clone, Copy, Debug, PartialEq, Eq, Structural)]
pub enum Cursor {
    /// No `advance` has been made yet.
    NotStarted,
    /// On the token with this index.
    Positioned(usize),
    /// Past the last token. Nothing leads out of this state.
    Exhausted,
}

/// The cursor that one `advance` leads to, over `len` tokens.
pub open spec fn next_cursor(cursor: Cursor, len: nat) -> Cursor {
    match cursor {
        Cursor::NotStarted => if 0 < len {
            Cursor::Positioned(0)
        } else {
            Cursor::Exhausted
        },
        Cursor::Positioned(i) => if i + 1 < len {
            Cursor::Positioned((i + 1) as usize)
        } else {
            Cursor::Exhausted
        },
        Cursor::Exhausted => Cursor::Exhausted,
    }
}

/// Whether an `advance` from `cursor` finds a token: what `advance` returns.
pub open spec fn finds_token(cursor: Cursor, len: nat) -> bool {
    next_cursor(cursor, len) is Positioned
}

/// The cursor that `steps` calls of `advance` lead to.
pub open spec fn cursor_after(cursor: Cursor, len: nat, steps: nat) -> Cursor
    decreases steps,
{
    if steps == 0 {
        cursor
    } else {
        next_cursor(cursor_after(cursor, len, (steps - 1) as nat), len)
    }
}

/// The token in reach of a cursor: the one it stands on, if it stands on one.
pub open spec fn token_at(tokens: Seq<TokenView>, cursor: Cursor) -> Option<TokenView> {
    match cursor {
        Cursor::Positioned(i) if i < tokens.len() => Some(tokens[i as int]),
        _ => None,
    }
}

/// Once an `advance` has found no further token, the stream is exhausted and
/// stays so: however many more calls are made, the next one finds no token
/// either, and no token is in reach.
pub proof fn lemma_exhaustion_is_final(tokens: Seq<TokenView>, cursor: Cursor, steps: nat)
    requires
        !finds_token(cursor, tokens.len()),
    ensures
        cursor_after(next_cursor(cursor, tokens.len()), tokens.len(), steps) == Cursor::Exhausted,
        !finds_token(
            cursor_after(next_cursor(cursor, tokens.len()), tokens.len(), steps),
            tokens.len(),
        ),
        token_at(
            tokens,
            cursor_after(next_cursor(cursor, tokens.len()), tokens.len(), steps),
        ) is None,
    decreases steps,
{
    if steps > 0 {
        lemma_exhaustion_is_final(tokens, cursor, (steps - 1) as nat);
    }
}

/// The mathematical content of a [`VibratoTokenStream`].
pub struct StreamView {
    pub tokens: Seq<TokenView>,
    pub cursor: Cursor,
}

/// A pull-style stream over the tokens of one text.
pub struct VibratoTokenStream {
    tokens: Vec<Token>,
    cursor: Cursor,
}

impl View for VibratoTokenStream {
    type V = StreamView;

    closed spec fn view(&self) -> StreamView {
        StreamView { tokens: views(self.tokens@), cursor: self.cursor }
    }
}

impl VibratoTokenStream {
    /// A positioned cursor always points at one of the tokens.
    #[verifier::type_invariant]
    spec fn inv(self) -> bool {
        self.cursor matches Cursor::Positioned(i) ==> i < self.tokens@.len()
    }

    /// A stream over `tokens`, standing in front of the first one.
    pub fn new(tokens: Vec<Token>) -> (stream: VibratoTokenStream)
        ensures
            stream@.cursor == Cursor::NotStarted,
            stream@.tokens == views(tokens@),
    {
        VibratoTokenStream { tokens, cursor: Cursor::NotStarted }
    }

    /// Where the stream stands.
    pub fn cursor(&self) -> (cursor: Cursor)
        ensures
            cursor == self@.cursor,
    {
        self.cursor
    }

    /// Number of tokens in the stream, read or not.
    pub fn len(&self) -> (len: usize)
        ensures
            len == self@.tokens.len(),
    {
        self.tokens.len()
    }

    /// Moves to the next token and says whether there was one.
    pub fn advance(&mut self) -> (more: bool)
        ensures
            final(self)@.tokens == old(self)@.tokens,
            final(self)@.cursor == next_cursor(old(self)@.cursor, old(self)@.tokens.len()),
            more == finds_token(old(self)@.cursor, old(self)@.tokens.len()),
    {
        proof {
            use_type_invariant(&*self);
        }
        let len = self.tokens.len();
        let next = match self.cursor {
            Cursor::NotStarted => if 0 < len {
                Cursor::Positioned(0)
            } else {
                Cursor::Exhausted
            },
            Cursor::Positioned(i) => if i + 1 < len {
                Cursor::Positioned(i + 1)
            } else {
                Cursor::Exhausted
            },
            Cursor::Exhausted => Cursor::Exhausted,
        };
        self.cursor = next;
        match next {
            Cursor::Positioned(_) => true,
            _ => false,
        }
    }

    /// Moves to the next token and returns it, or `None` where there is none.
    pub fn next(&mut self) -> (token: Option<&Token>)
        ensures
            final(self)@.tokens == old(self)@.tokens,
            final(self)@.cursor == next_cursor(old(self)@.cursor, old(self)@.tokens.len()),
            match token {
                Some(t) => Some(t@),
                None => None,
            } == token_at(final(self)@.tokens, final(self)@.cursor),
    {
        if self.advance() {
            Some(self.token())
        } else {
            None
        }
    }

    /// The token under the cursor.
    pub fn token(&self) -> (token: &Token)
        requires
            self@.cursor is Positioned,
        ensures
            Some(token@) == token_at(self@.tokens, self@.cursor),
    {
        proof {
            use_type_invariant(self);
        }
        match self.cursor {
            Cursor::Positioned(i) => &self.tokens[i],
            _ => vstd::pervasive::unreached(),
        }
    }

    /// The token under the cursor, or `None` where the cursor stands on none.
    pub fn current(&self) -> (token: Option<&Token>)
        ensures
            match token {
                Some(t) => Some(t@),
                None => None,
            } == token_at(self@.tokens, self@.cursor),
    {
        proof {
            use_type_invariant(self);
        }
        match self.cursor {
            Cursor::Positioned(i) => Some(&self.tokens[i]),
            _ => None,
        }
    }

    /// The token under the cursor, for rewriting in place, or `None` where the
    /// cursor stands on none.
    pub fn current_mut(&mut self) -> (token: Option<&mut Token>)
        ensures
            final(self)@.cursor == old(self)@.cursor,
            match token {
                Some(t) => {
                    &&& Some(t@) == token_at(old(self)@.tokens, old(self)@.cursor)
                    &&& final(self)@.tokens == old(self)@.tokens.update(
                        old(self)@.cursor->Positioned_0 as int,
                        final(t)@,
                    )
                },
                None => {
                    &&& token_at(old(self)@.tokens, old(self)@.cursor) is None
                    &&& final(self)@.tokens == old(self)@.tokens
                },
            },
    {
        proof {
            use_type_invariant(&*self);
        }
        match self.cursor {
            Cursor::Positioned(i) => Some(&mut self.tokens[i]),
            _ => None,
        }
    }

    /// The token under the cursor, for rewriting in place.
    pub fn token_mut(&mut self) -> (token: &mut Token)
        requires
            old(self)@.cursor is Positioned,
        ensures
            Some(token@) == token_at(old(self)@.tokens, old(self)@.cursor),
            final(self)@.cursor == old(self)@.cursor,
            final(self)@.tokens == old(self)@.tokens.update(
                old(self)@.cursor->Positioned_0 as int,
                final(token)@,
            ),
    {
        proof {
            use_type_invariant(&*self);
        }
        match self.cursor {
            Cursor::Positioned(i) => &mut self.tokens[i],
            _ => vstd::pervasive::unreached(),
        }
    }
}

} // verus!
