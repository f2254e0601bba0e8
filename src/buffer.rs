use vstd::prelude::*;
use crate::token::Token;

verus! {

/// The tokens of one parse attempt and a cursor into them. Productions move
/// the cursor forward; rolling back is resetting it.
pub struct TokenBuffer {
    pub tokens: Vec<Token>,
    pub pos: usize,
}

/// What happened when a production tried to take one token.
pub enum Step<T> {
    /// The token was there and of the expected kind.
    Took(T),
    /// The input ended before the token.
    Missing,
    /// A token of another kind stood there.
    Wrong,
}

impl TokenBuffer {
    pub open spec fn wf(&self) -> bool {
        self.pos <= self.tokens@.len()
    }

    /// The tokens not taken yet.
    pub open spec fn rest(&self) -> Seq<Token> {
        self.tokens@.subrange(self.pos as int, self.tokens@.len() as int)
    }

    /// A buffer over `tokens`, its cursor at the start.
    pub fn new(tokens: Vec<Token>) -> (r: TokenBuffer)
        ensures
            r.wf(),
            r.tokens@ == tokens@,
            r.pos == 0,
    {
        TokenBuffer { tokens, pos: 0 }
    }

    /// Adds tokens at the end, for a retry once more input has come.
    pub fn append(&mut self, more: Vec<Token>)
        requires
            old(self).wf(),
        ensures
            final(self).wf(),
            final(self).pos == old(self).pos,
            final(self).tokens@ == old(self).tokens@ + more@,
    {
        let mut more = more;
        self.tokens.append(&mut more);
    }

    /// The next token, if any, without taking it.
    pub fn peek(&self) -> (r: Option<&Token>)
        requires
            self.wf(),
        ensures
            self.pos < self.tokens@.len() ==> r == Some(&self.tokens@[self.pos as int]),
            self.pos == self.tokens@.len() ==> r is None,
    {
        if self.pos < self.tokens.len() {
            Some(&self.tokens[self.pos])
        } else {
            None
        }
    }

    /// The token after the next one, if any, without taking anything.
    pub fn peek_second(&self) -> (r: Option<&Token>)
        requires
            self.wf(),
        ensures
            self.pos + 1 < self.tokens@.len() ==> r == Some(&self.tokens@[self.pos + 1]),
            self.pos + 1 >= self.tokens@.len() ==> r is None,
    {
        if self.tokens.len() - self.pos > 1 {
            Some(&self.tokens[self.pos + 1])
        } else {
            None
        }
    }

    /// Takes the next token if it is `fixed`.
    pub fn expect(&mut self, fixed: &Token) -> (r: Step<()>)
        requires
            old(self).wf(),
            fixed.is_fixed(),
        ensures
            final(self).tokens == old(self).tokens,
            final(self).wf(),
            match r {
                Step::Took(_) => old(self).pos < old(self).tokens@.len()
                    && old(self).tokens@[old(self).pos as int] == *fixed
                    && final(self).pos == old(self).pos + 1,
                Step::Missing => old(self).pos == old(self).tokens@.len()
                    && final(self).pos == old(self).pos,
                Step::Wrong => old(self).pos < old(self).tokens@.len()
                    && old(self).tokens@[old(self).pos as int] != *fixed
                    && final(self).pos == old(self).pos,
            },
    {
        if self.pos == self.tokens.len() {
            Step::Missing
        } else if self.tokens[self.pos].is(fixed) {
            self.pos = self.pos + 1;
            Step::Took(())
        } else {
            Step::Wrong
        }
    }

    /// Takes the next token if it is an identifier, and returns its name.
    pub fn expect_identifier(&mut self) -> (r: Step<String>)
        requires
            old(self).wf(),
        ensures
            final(self).tokens == old(self).tokens,
            final(self).wf(),
            match r {
                Step::Took(name) => old(self).pos < old(self).tokens@.len()
                    && old(self).tokens@[old(self).pos as int] == Token::Identifier(name)
                    && final(self).pos == old(self).pos + 1,
                Step::Missing => old(self).pos == old(self).tokens@.len()
                    && final(self).pos == old(self).pos,
                Step::Wrong => old(self).pos < old(self).tokens@.len()
                    && !(old(self).tokens@[old(self).pos as int] is Identifier)
                    && final(self).pos == old(self).pos,
            },
    {
        if self.pos == self.tokens.len() {
            return Step::Missing;
        }
        match &self.tokens[self.pos] {
            Token::Identifier(name) => {
                let name = name.clone();
                self.pos = self.pos + 1;
                Step::Took(name)
            },
            _ => Step::Wrong,
        }
    }

    /// Copies of the tokens from `start` up to the cursor.
    pub fn taken_since(&self, start: usize) -> (r: Vec<Token>)
        requires
            self.wf(),
            start <= self.pos,
        ensures
            r@ == self.tokens@.subrange(start as int, self.pos as int),
    {
        let mut r: Vec<Token> = Vec::new();
        let mut i: usize = start;
        while i < self.pos
            invariant
                self.wf(),
                start <= i <= self.pos,
                r@ == self.tokens@.subrange(start as int, i as int),
            decreases self.pos - i,
        {
            r.push(self.tokens[i].copy());
            i = i + 1;
            assert(r@ =~= self.tokens@.subrange(start as int, i as int));
        }
        r
    }
}

} // verus!
