//! Tokenizer for the tile script language.
use vstd::prelude::*;

use crate::text::{is_digit, is_ident_char, substring_chars};

verus! {

#[derive(PartialEq, Eq, Structural, Clone, Copy, Debug)]
pub enum TokenType {
    Let,
    Identifier,
    Number,
    HexColor,
    String,
    Equal,
    Less,
    Greater,
    Star,
    Plus,
    Minus,
    Slash,
    Colon,
    Semicolon,
    Comma,
    LeftBracket,
    RightBracket,
    LeftParen,
    RightParen,
    Dot,
    Space,
    Error,
    Eof,
}

/// Whether `c` can stand in a hex color.
pub open spec fn spec_is_hex_char(c: char) -> bool {
    crate::text::spec_hex_digit_val(c) >= 0
}

/// Whether `c` is blank space to the scanner.
pub open spec fn spec_is_ws_char(c: char) -> bool {
    c == ' ' || c == '\t' || c == '\r' || c == '\n'
}

/// What a token's lexeme looks like for its kind: operators are their
/// single character, numbers are digits around at most one dot, names are
/// identifier characters (`let` being the keyword), colors start with a
/// hash mark, strings are quoted, and an end-of-text token is empty.
pub open spec fn spec_token_shape(kind: TokenType, lexeme: Seq<char>) -> bool {
    match kind {
        TokenType::Equal => lexeme == seq!['='],
        TokenType::Less => lexeme == seq!['<'],
        TokenType::Greater => lexeme == seq!['>'],
        TokenType::Star => lexeme == seq!['*'],
        TokenType::Plus => lexeme == seq!['+'],
        TokenType::Minus => lexeme == seq!['-'],
        TokenType::Slash => lexeme == seq!['/'],
        TokenType::Colon => lexeme == seq![':'],
        TokenType::Semicolon => lexeme == seq![';'],
        TokenType::Comma => lexeme == seq![','],
        TokenType::LeftBracket => lexeme == seq!['['],
        TokenType::RightBracket => lexeme == seq![']'],
        TokenType::LeftParen => lexeme == seq!['('],
        TokenType::RightParen => lexeme == seq![')'],
        TokenType::Dot => lexeme == seq!['.'],
        TokenType::Number => lexeme.len() > 0 && crate::text::spec_is_digit(lexeme[0]) && (
        forall|i: int|
            0 <= i < lexeme.len() ==> crate::text::spec_is_digit(#[trigger] lexeme[i])
                || lexeme[i] == '.'),
        TokenType::Identifier => lexeme.len() > 0 && lexeme != "let"@ && (forall|i: int|
            0 <= i < lexeme.len() ==> crate::text::spec_is_ident_char(#[trigger] lexeme[i])),
        TokenType::Let => lexeme == "let"@,
        TokenType::HexColor => lexeme.len() >= 1 && lexeme[0] == '#' && (forall|i: int|
            1 <= i < lexeme.len() ==> spec_is_hex_char(#[trigger] lexeme[i])),
        TokenType::String => lexeme.len() >= 2 && lexeme[0] == '"' && lexeme.last() == '"',
        TokenType::Space => lexeme.len() > 0 && (forall|i: int|
            0 <= i < lexeme.len() ==> spec_is_ws_char(#[trigger] lexeme[i])),
        TokenType::Error => true,
        TokenType::Eof => lexeme.len() == 0,
    }
}

/// One lexical unit of the source text.
#[derive(Clone, Debug)]
pub struct Token {
    pub kind: TokenType,
    pub lexeme: String,
    pub line: u32,
    pub indent: usize,
}

impl Token {
    /// A placeholder token carrying only a lexeme.
    pub fn synthetic(lexeme: String) -> (r: Token)
        ensures
            r.kind == TokenType::Error,
            r.lexeme@ == lexeme@,
    {
        Token { kind: TokenType::Error, lexeme, line: 0, indent: 0 }
    }
}

/// Splits source text into tokens, one call at a time.
pub struct Scanner {
    pub chars: Vec<char>,
    pub pos: usize,
    pub line: u32,
    pub line_start: usize,
}

impl Scanner {
    /// The cursor never passes the end of the text.
    pub open spec fn wf(&self) -> bool {
        self.pos <= self.chars@.len()
    }

    pub fn new(code: String) -> (r: Scanner)
        ensures
            r.wf(),
            r.chars@ == code@,
            r.pos == 0,
    {
        Scanner { chars: crate::text::chars_of(code.as_str()), pos: 0, line: 1, line_start: 0 }
    }

    /// Next token. The cursor never moves backwards, and only an end-of-text
    /// token leaves it in place, so every other token consumes input.
    pub fn scan_token(&mut self, with_whitespace: bool) -> (r: Token)
        requires
            old(self).wf(),
        ensures
            final(self).wf(),
            final(self).chars@ == old(self).chars@,
            final(self).pos >= old(self).pos,
            final(self).pos > old(self).pos || r.kind == TokenType::Eof,
            r.kind == TokenType::Eof ==> final(self).pos == final(self).chars@.len(),
            old(self).pos == old(self).chars@.len() ==> r.kind == TokenType::Eof,
            spec_token_shape(r.kind, r.lexeme@),
            r.kind != TokenType::Eof ==> exists|start: int|
                old(self).pos <= start < final(self).pos && r.lexeme@
                    == final(self).chars@.subrange(start, final(self).pos as int),
    {
        let n: usize = self.chars.len();
        if with_whitespace && self.pos < n && self.is_ws_at(self.pos) {
            let start: usize = self.pos;
            if self.chars[self.pos] == '\n' {
                if self.line < u32::MAX {
                    self.line = self.line + 1;
                }
                self.line_start = self.pos + 1;
            }
            self.pos += 1;
            while self.pos < n && self.is_ws_at(self.pos)
                invariant
                    start < self.pos <= n,
                    n == self.chars@.len(),
                    self.chars@ == old(self).chars@,
                    forall|j: int| start <= j < self.pos ==> spec_is_ws_char(#[trigger] self.chars@[j]),
                decreases n - self.pos,
            {
                if self.chars[self.pos] == '\n' {
                    if self.line < u32::MAX {
                        self.line = self.line + 1;
                    }
                    self.line_start = self.pos + 1;
                }
                self.pos += 1;
            }
            let t: Token = self.make_token(TokenType::Space, start);
            proof {
                assert(spec_token_shape(TokenType::Space, t.lexeme@));
            }
            return t;
        }
        if !with_whitespace {
            self.skip_whitespace();
        }
        let n: usize = self.chars.len();
        if self.pos >= n {
            return Token {
                kind: TokenType::Eof,
                lexeme: String::new(),
                line: self.line,
                indent: 0,
            };
        }
        let start: usize = self.pos;
        let c: char = self.chars[self.pos];
        self.pos += 1;
        let single: Option<TokenType> = if c == '=' {
            Some(TokenType::Equal)
        } else if c == '<' {
            Some(TokenType::Less)
        } else if c == '>' {
            Some(TokenType::Greater)
        } else if c == '*' {
            Some(TokenType::Star)
        } else if c == '+' {
            Some(TokenType::Plus)
        } else if c == '-' {
            Some(TokenType::Minus)
        } else if c == '/' {
            Some(TokenType::Slash)
        } else if c == ':' {
            Some(TokenType::Colon)
        } else if c == ';' {
            Some(TokenType::Semicolon)
        } else if c == ',' {
            Some(TokenType::Comma)
        } else if c == '[' {
            Some(TokenType::LeftBracket)
        } else if c == ']' {
            Some(TokenType::RightBracket)
        } else if c == '(' {
            Some(TokenType::LeftParen)
        } else if c == ')' {
            Some(TokenType::RightParen)
        } else if c == '.' {
            Some(TokenType::Dot)
        } else {
            None
        };
        if let Some(kind) = single {
            let t: Token = self.make_token(kind, start);
            proof {
                assert(t.lexeme@ =~= seq![c]);
            }
            return t;
        }
        if c == '#' {
            while self.pos < n && self.is_hex_at(self.pos)
                invariant
                    start < self.pos <= n,
                    n == self.chars@.len(),
                    self.chars@ == old(self).chars@,
                    self.chars@[start as int] == '#',
                    forall|j: int|
                        start < j < self.pos ==> spec_is_hex_char(#[trigger] self.chars@[j]),
                decreases n - self.pos,
            {
                self.pos += 1;
            }
            let t: Token = self.make_token(TokenType::HexColor, start);
            proof {
                assert(spec_token_shape(TokenType::HexColor, t.lexeme@));
            }
            t
        } else if c == '"' {
            let mut closed: bool = false;
            while self.pos < n && !closed
                invariant
                    start < self.pos <= n,
                    n == self.chars@.len(),
                    self.chars@ == old(self).chars@,
                    self.chars@[start as int] == '"',
                    closed ==> self.pos > start + 1 && self.chars@[self.pos - 1] == '"',
                decreases n - self.pos,
            {
                let cc: char = self.chars[self.pos];
                self.pos += 1;
                if cc == '"' {
                    closed = true;
                }
            }
            if closed {
                let t: Token = self.make_token(TokenType::String, start);
                proof {
                    assert(t.lexeme@.last() == self.chars@[self.pos - 1]);
                    assert(spec_token_shape(TokenType::String, t.lexeme@));
                }
                t
            } else {
                self.make_token(TokenType::Error, start)
            }
        } else if is_digit(c) {
            while self.pos < n && self.is_digit_at(self.pos)
                invariant
                    start < self.pos <= n,
                    n == self.chars@.len(),
                    self.chars@ == old(self).chars@,
                    self.chars@[start as int] == c,
                    forall|j: int|
                        start < j < self.pos ==> crate::text::spec_is_digit(
                            #[trigger] self.chars@[j],
                        ),
                decreases n - self.pos,
            {
                self.pos += 1;
            }
            if self.pos < n && self.chars[self.pos] == '.' {
                let ghost dot: int = self.pos as int;
                self.pos += 1;
                while self.pos < n && self.is_digit_at(self.pos)
                    invariant
                        start < self.pos <= n,
                        n == self.chars@.len(),
                        self.chars@ == old(self).chars@,
                        self.chars@[start as int] == c,
                        start < dot < self.pos,
                        self.chars@[dot] == '.',
                        forall|j: int|
                            start < j < self.pos && j != dot ==> crate::text::spec_is_digit(
                                #[trigger] self.chars@[j],
                            ),
                    decreases n - self.pos,
                {
                    self.pos += 1;
                }
            }
            let t: Token = self.make_token(TokenType::Number, start);
            proof {
                assert(spec_token_shape(TokenType::Number, t.lexeme@));
            }
            t
        } else if is_ident_char(c) {
            while self.pos < n && self.is_ident_at(self.pos)
                invariant
                    start < self.pos <= n,
                    n == self.chars@.len(),
                    self.chars@ == old(self).chars@,
                    self.chars@[start as int] == c,
                    forall|j: int|
                        start < j < self.pos ==> crate::text::spec_is_ident_char(
                            #[trigger] self.chars@[j],
                        ),
                decreases n - self.pos,
            {
                self.pos += 1;
            }
            let lexeme: String = substring_chars(&self.chars, start, self.pos);
            let kind: TokenType = if crate::text::chars_match_str(
                &crate::text::chars_of(lexeme.as_str()),
                "let",
            ) {
                TokenType::Let
            } else {
                TokenType::Identifier
            };
            let indent: usize = self.indent_of(start);
            let t: Token = Token { kind, lexeme, line: self.line, indent };
            proof {
                assert(spec_token_shape(t.kind, t.lexeme@));
            }
            t
        } else {
            self.make_token(TokenType::Error, start)
        }
    }

    /// Advance over spaces, tabs, newlines and `//` comments.
    fn skip_whitespace(&mut self)
        requires
            old(self).wf(),
        ensures
            final(self).wf(),
            final(self).chars@ == old(self).chars@,
            final(self).pos >= old(self).pos,
    {
        let n: usize = self.chars.len();
        while self.pos < n && (self.is_ws_at(self.pos) || self.is_comment_at(self.pos))
            invariant
                self.pos <= n,
                n == self.chars@.len(),
                self.chars@ == old(self).chars@,
                self.pos >= old(self).pos,
            decreases n - self.pos,
        {
            let c: char = self.chars[self.pos];
            if c == '\n' {
                if self.line < u32::MAX {
                    self.line = self.line + 1;
                }
                self.line_start = self.pos + 1;
                self.pos += 1;
            } else if c == '/' {
                // a comment: skip to the end of the line
                self.pos += 1;
                let ghost p0: int = self.pos as int;
                while self.pos < n && self.chars[self.pos] != '\n'
                    invariant
                        p0 <= self.pos <= n,
                        n == self.chars@.len(),
                        self.chars@ == old(self).chars@,
                        self.pos >= old(self).pos,
                    decreases n - self.pos,
                {
                    self.pos += 1;
                }
            } else {
                self.pos += 1;
            }
        }
    }

    /// Whether a whitespace character stands at `i`.
    fn is_ws_at(&self, i: usize) -> (r: bool)
        requires
            i < self.chars@.len(),
        ensures
            r == spec_is_ws_char(self.chars@[i as int]),
    {
        let c: char = self.chars[i];
        c == ' ' || c == '\t' || c == '\r' || c == '\n'
    }

    /// Whether a `//` comment starts at `i`.
    fn is_comment_at(&self, i: usize) -> (r: bool)
        requires
            i < self.chars@.len(),
    {
        let n: usize = self.chars.len();
        self.chars[i] == '/' && i + 1 < n && self.chars[i + 1] == '/'
    }

    fn is_digit_at(&self, i: usize) -> (r: bool)
        requires
            i < self.chars@.len(),
        ensures
            r == crate::text::spec_is_digit(self.chars@[i as int]),
    {
        is_digit(self.chars[i])
    }

    fn is_ident_at(&self, i: usize) -> (r: bool)
        requires
            i < self.chars@.len(),
        ensures
            r == crate::text::spec_is_ident_char(self.chars@[i as int]),
    {
        is_ident_char(self.chars[i])
    }

    fn is_hex_at(&self, i: usize) -> (r: bool)
        requires
            i < self.chars@.len(),
        ensures
            r == spec_is_hex_char(self.chars@[i as int]),
    {
        let c: char = self.chars[i];
        let u: u32 = c as u32;
        is_digit(c) || (97 <= u && u <= 102) || (65 <= u && u <= 70)
    }

    /// Column of `start` relative to the current line's first character.
    fn indent_of(&self, start: usize) -> (r: usize) {
        if start >= self.line_start {
            start - self.line_start
        } else {
            0
        }
    }

    /// A token whose lexeme is the scanned span `start..pos`.
    fn make_token(&self, kind: TokenType, start: usize) -> (r: Token)
        requires
            start <= self.pos <= self.chars@.len(),
        ensures
            r.kind == kind,
            r.lexeme@ == self.chars@.subrange(start as int, self.pos as int),
    {
        Token {
            kind,
            lexeme: substring_chars(&self.chars, start, self.pos),
            line: self.line,
            indent: self.indent_of(start),
        }
    }
}

} // verus!
