use vstd::prelude::*;

verus! {

/// One lexical token of assembler source, each remembering the line it
/// was read on; the word-like kinds also carry their text.
#[derive(Debug)]
pub enum Token {
    LeftParenthesis { line: u32 },
    RightParenthesis { line: u32 },
    LeftAngledBracket { line: u32 },
    RightAngledBracket { line: u32 },
    LeftSquareBracket { line: u32 },
    RightSquareBracket { line: u32 },
    Hashtag { line: u32 },
    Comma { line: u32 },
    Equals { line: u32 },
    Period { line: u32 },
    Colon { line: u32 },
    DoubleColon { line: u32 },
    Slash { line: u32 },
    HexPrefix { line: u32 },
    EndOfFile { line: u32 },
    Directive { line: u32, lexeme: String },
    Instruction { line: u32, lexeme: String },
    Label { line: u32, lexeme: String },
    Register { line: u32, lexeme: String },
    Number { line: u32, lexeme: String },
}

impl Token {
    /// The line the token was read on.
    pub open spec fn line_spec(&self) -> u32 {
        match self {
            Token::LeftParenthesis { line } => *line,
            Token::RightParenthesis { line } => *line,
            Token::LeftAngledBracket { line } => *line,
            Token::RightAngledBracket { line } => *line,
            Token::LeftSquareBracket { line } => *line,
            Token::RightSquareBracket { line } => *line,
            Token::Hashtag { line } => *line,
            Token::Comma { line } => *line,
            Token::Equals { line } => *line,
            Token::Period { line } => *line,
            Token::Colon { line } => *line,
            Token::DoubleColon { line } => *line,
            Token::Slash { line } => *line,
            Token::HexPrefix { line } => *line,
            Token::EndOfFile { line } => *line,
            Token::Directive { line, .. } => *line,
            Token::Instruction { line, .. } => *line,
            Token::Label { line, .. } => *line,
            Token::Register { line, .. } => *line,
            Token::Number { line, .. } => *line,
        }
    }

    /// The token's text: fixed for the punctuation kinds, carried for the
    /// word-like kinds.
    pub open spec fn lexeme_spec(&self) -> Seq<char> {
        match self {
            Token::LeftParenthesis { .. } => "("@,
            Token::RightParenthesis { .. } => ")"@,
            Token::LeftAngledBracket { .. } => "<"@,
            Token::RightAngledBracket { .. } => ">"@,
            Token::LeftSquareBracket { .. } => "["@,
            Token::RightSquareBracket { .. } => "]"@,
            Token::Hashtag { .. } => "#"@,
            Token::Comma { .. } => ","@,
            Token::Equals { .. } => "="@,
            Token::Period { .. } => "."@,
            Token::Colon { .. } => ":"@,
            Token::DoubleColon { .. } => "::"@,
            Token::Slash { .. } => "/"@,
            Token::HexPrefix { .. } => "0x"@,
            Token::EndOfFile { .. } => "EOF"@,
            Token::Directive { lexeme, .. } => lexeme@,
            Token::Instruction { lexeme, .. } => lexeme@,
            Token::Label { lexeme, .. } => lexeme@,
            Token::Register { lexeme, .. } => lexeme@,
            Token::Number { lexeme, .. } => lexeme@,
        }
    }

    /// The line the token was read on.
    pub fn line(&self) -> (r: u32)
        ensures
            r == self.line_spec(),
    {
        match self {
            Token::LeftParenthesis { line } => *line,
            Token::RightParenthesis { line } => *line,
            Token::LeftAngledBracket { line } => *line,
            Token::RightAngledBracket { line } => *line,
            Token::LeftSquareBracket { line } => *line,
            Token::RightSquareBracket { line } => *line,
            Token::Hashtag { line } => *line,
            Token::Comma { line } => *line,
            Token::Equals { line } => *line,
            Token::Period { line } => *line,
            Token::Colon { line } => *line,
            Token::DoubleColon { line } => *line,
            Token::Slash { line } => *line,
            Token::HexPrefix { line } => *line,
            Token::EndOfFile { line } => *line,
            Token::Directive { line, .. } => *line,
            Token::Instruction { line, .. } => *line,
            Token::Label { line, .. } => *line,
            Token::Register { line, .. } => *line,
            Token::Number { line, .. } => *line,
        }
    }

    /// The token's text.
    pub fn lexeme(&self) -> (r: &str)
        ensures
            r@ == self.lexeme_spec(),
    {
        match self {
            Token::LeftParenthesis { .. } => "(",
            Token::RightParenthesis { .. } => ")",
            Token::LeftAngledBracket { .. } => "<",
            Token::RightAngledBracket { .. } => ">",
            Token::LeftSquareBracket { .. } => "[",
            Token::RightSquareBracket { .. } => "]",
            Token::Hashtag { .. } => "#",
            Token::Comma { .. } => ",",
            Token::Equals { .. } => "=",
            Token::Period { .. } => ".",
            Token::Colon { .. } => ":",
            Token::DoubleColon { .. } => "::",
            Token::Slash { .. } => "/",
            Token::HexPrefix { .. } => "0x",
            Token::EndOfFile { .. } => "EOF",
            Token::Directive { lexeme, .. } => lexeme.as_str(),
            Token::Instruction { lexeme, .. } => lexeme.as_str(),
            Token::Label { lexeme, .. } => lexeme.as_str(),
            Token::Register { lexeme, .. } => lexeme.as_str(),
            Token::Number { lexeme, .. } => lexeme.as_str(),
        }
    }
}

} // verus!
