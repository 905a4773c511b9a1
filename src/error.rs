//! Error taxonomy of the library.

use vstd::prelude::*;

verus! {

/// Everything that can go wrong while configuring or publishing.
#[derive(Debug, Clone, PartialEq)]
pub enum Error {
    /// A filesystem operation failed.
    Io { message: String },
    /// The publishing platform refused the article.
    WeChat { message: String },
    /// An HTTP exchange failed before a status was known.
    Http { message: String },
    /// The metadata block is not well-formed structured data.
    Yaml { message: String },
    /// A JSON document could not be read or written.
    Json { message: String },
    /// A file that was expected is absent.
    FileNotFound { path: String },
    /// A file does not have the expected layout.
    InvalidFormat { path: String, reason: String },
    /// A required environment variable is not set.
    MissingEnvVar { var: String },
    /// An AI backend failed in a way that carries only a message.
    OpenAI { message: String },
    /// An AI backend answered with a non-success status.
    Provider { provider: String, status: u16, body: String },
    /// A cover image could not be produced.
    CoverImage { path: String, reason: String },
    /// An article could not be parsed.
    MarkdownParse { path: String, reason: String },
    /// A metadata field holds a value of the wrong kind.
    InvalidField { key: String },
    /// The declared theme is not one of the known themes.
    InvalidTheme { value: String },
    /// The declared code highlighter is not one of the known highlighters.
    InvalidCodeHighlighter { value: String },
    /// A configuration problem described by a message.
    Config { message: String },
    /// No account is configured.
    EmptyAccountSet,
    /// The named account is not configured; `available` lists those that are.
    AccountNotFound { name: String, available: Vec<String> },
    /// The configured AI provider name is neither `openai` nor `gemini`.
    UnsupportedProvider { name: String },
    /// The account's application id is empty or whitespace.
    EmptyAppId { account: String },
    /// The account's application secret is empty or whitespace.
    EmptyAppSecret { account: String },
    /// Any other failure.
    Generic { message: String },
}

/// A decimal digit.
pub open spec fn digit_char(d: nat) -> char {
    if d == 0 {
        '0'
    } else if d == 1 {
        '1'
    } else if d == 2 {
        '2'
    } else if d == 3 {
        '3'
    } else if d == 4 {
        '4'
    } else if d == 5 {
        '5'
    } else if d == 6 {
        '6'
    } else if d == 7 {
        '7'
    } else if d == 8 {
        '8'
    } else {
        '9'
    }
}

/// The decimal numeral of `n`.
pub open spec fn decimal(n: nat) -> Seq<char>
    decreases n,
{
    if n < 10 {
        seq![digit_char(n)]
    } else {
        decimal(n / 10).push(digit_char(n % 10))
    }
}

/// Names separated by `, `.
pub open spec fn joined_names(names: Seq<String>) -> Seq<char>
    decreases names.len(),
{
    if names.len() == 0 {
        Seq::empty()
    } else if names.len() == 1 {
        names[0]@
    } else {
        joined_names(names.drop_last()) + ", "@ + names.last()@
    }
}

/// The themes, as listed in messages.
pub open spec fn theme_list() -> Seq<char> {
    "default, lapis, maize, orangeheart, phycat, pie, purple, rainbow"@
}

/// The code highlighters, as listed in messages.
pub open spec fn highlighter_list() -> Seq<char> {
    "github, github-dark, vscode, atom-one-light, atom-one-dark, solarized-light, solarized-dark, monokai, dracula, xcode"@
}

/// The message that describes an error.
pub open spec fn message_spec(e: Error) -> Seq<char> {
    match e {
        Error::Io { message } => "I/O error: "@ + message@,
        Error::WeChat { message } => "WeChat API error: "@ + message@,
        Error::Http { message } => "HTTP request failed: "@ + message@,
        Error::Yaml { message } => "YAML error: "@ + message@,
        Error::Json { message } => "JSON error: "@ + message@,
        Error::FileNotFound { path } => "File not found: "@ + path@,
        Error::InvalidFormat { path, reason } => "Invalid file format for "@ + path@ + ": "@
            + reason@,
        Error::MissingEnvVar { var } => "Missing required environment variable: "@ + var@,
        Error::OpenAI { message } => "OpenAI API error: "@ + message@,
        Error::Provider { provider, status, body } => provider@
            + " API request failed with status "@ + decimal(status as nat) + ": "@ + body@,
        Error::CoverImage { path, reason } => "Cover image error for "@ + path@ + ": "@ + reason@,
        Error::MarkdownParse { path, reason } => "Markdown parsing error for "@ + path@ + ": "@
            + reason@,
        Error::InvalidField { key } => "Invalid metadata field '"@ + key@ + "': expected text"@,
        Error::InvalidTheme { value } => "Invalid theme '"@ + value@ + "'. Available themes: "@
            + theme_list(),
        Error::InvalidCodeHighlighter { value } => "Invalid code highlighter '"@ + value@
            + "'. Available highlighters: "@ + highlighter_list(),
        Error::Config { message } => "Configuration error: "@ + message@,
        Error::EmptyAccountSet => "Configuration error: No WeChat accounts configured"@,
        Error::AccountNotFound { name, available } => "Configuration error: Account '"@ + name@
            + "' not found. Available accounts: "@ + joined_names(available@),
        Error::UnsupportedProvider { name } => "Configuration error: Unsupported AI provider: "@
            + name@,
        Error::EmptyAppId { account } => "Configuration error: Account '"@ + account@
            + "' has empty app ID"@,
        Error::EmptyAppSecret { account } => "Configuration error: Account '"@ + account@
            + "' has empty app secret"@,
        Error::Generic { message } => "Operation failed: "@ + message@,
    }
}

fn digit_text(d: u16) -> (r: &'static str)
    requires
        d < 10,
    ensures
        r@ == seq![digit_char(d as nat)],
{
    proof {
        reveal_strlit("0");
        reveal_strlit("1");
        reveal_strlit("2");
        reveal_strlit("3");
        reveal_strlit("4");
        reveal_strlit("5");
        reveal_strlit("6");
        reveal_strlit("7");
        reveal_strlit("8");
        reveal_strlit("9");
    }
    if d == 0 {
        "0"
    } else if d == 1 {
        "1"
    } else if d == 2 {
        "2"
    } else if d == 3 {
        "3"
    } else if d == 4 {
        "4"
    } else if d == 5 {
        "5"
    } else if d == 6 {
        "6"
    } else if d == 7 {
        "7"
    } else if d == 8 {
        "8"
    } else {
        "9"
    }
}

/// The decimal numeral of `n`.
pub fn decimal_text(n: u16) -> (r: String)
    ensures
        r@ == decimal(n as nat),
    decreases n,
{
    if n < 10 {
        String::from_str(digit_text(n))
    } else {
        let mut r = decimal_text(n / 10);
        r.append(digit_text(n % 10));
        r
    }
}

fn join_texts(names: &Vec<String>) -> (r: String)
    ensures
        r@ == joined_names(names@),
{
    let mut r = String::new();
    let mut i: usize = 0;
    while i < names.len()
        invariant
            i <= names@.len(),
            r@ == joined_names(names@.take(i as int)),
        decreases names@.len() - i,
    {
        assert(names@.take(i + 1).drop_last() =~= names@.take(i as int));
        if i > 0 {
            r.append(", ");
        } else {
            assert(names@.take(0) =~= Seq::<String>::empty());
        }
        r.append(names[i].as_str());
        i = i + 1;
    }
    assert(names@.take(names@.len() as int) =~= names@);
    r
}

impl Error {
    /// The message that describes the error.
    pub fn to_string(&self) -> (r: String)
        ensures
            r@ == message_spec(*self),
    {
        let (head, tail): (&str, Option<&String>) = match self {
            Error::Io { message } => ("I/O error: ", Some(message)),
            Error::WeChat { message } => ("WeChat API error: ", Some(message)),
            Error::Http { message } => ("HTTP request failed: ", Some(message)),
            Error::Yaml { message } => ("YAML error: ", Some(message)),
            Error::Json { message } => ("JSON error: ", Some(message)),
            Error::FileNotFound { path } => ("File not found: ", Some(path)),
            Error::MissingEnvVar { var } => ("Missing required environment variable: ", Some(var)),
            Error::OpenAI { message } => ("OpenAI API error: ", Some(message)),
            Error::Config { message } => ("Configuration error: ", Some(message)),
            Error::EmptyAccountSet => ("Configuration error: No WeChat accounts configured", None),
            Error::UnsupportedProvider { name } => (
                "Configuration error: Unsupported AI provider: ",
                Some(name),
            ),
            Error::Generic { message } => ("Operation failed: ", Some(message)),
            _ => ("", None),
        };
        let mut r = String::from_str(head);
        if let Some(t) = tail {
            r.append(t.as_str());
        }
        match self {
            Error::InvalidFormat { path, reason } => {
                r.append("Invalid file format for ");
                r.append(path.as_str());
                r.append(": ");
                r.append(reason.as_str());
            },
            Error::Provider { provider, status, body } => {
                r.append(provider.as_str());
                r.append(" API request failed with status ");
                r.append(decimal_text(*status).as_str());
                r.append(": ");
                r.append(body.as_str());
            },
            Error::CoverImage { path, reason } => {
                r.append("Cover image error for ");
                r.append(path.as_str());
                r.append(": ");
                r.append(reason.as_str());
            },
            Error::MarkdownParse { path, reason } => {
                r.append("Markdown parsing error for ");
                r.append(path.as_str());
                r.append(": ");
                r.append(reason.as_str());
            },
            Error::InvalidField { key } => {
                r.append("Invalid metadata field '");
                r.append(key.as_str());
                r.append("': expected text");
            },
            Error::InvalidTheme { value } => {
                r.append("Invalid theme '");
                r.append(value.as_str());
                r.append("'. Available themes: ");
                r.append("default, lapis, maize, orangeheart, phycat, pie, purple, rainbow");
            },
            Error::InvalidCodeHighlighter { value } => {
                r.append("Invalid code highlighter '");
                r.append(value.as_str());
                r.append("'. Available highlighters: ");
                r.append(
                    "github, github-dark, vscode, atom-one-light, atom-one-dark, solarized-light, solarized-dark, monokai, dracula, xcode",
                );
            },
            Error::AccountNotFound { name, available } => {
                r.append("Configuration error: Account '");
                r.append(name.as_str());
                r.append("' not found. Available accounts: ");
                r.append(join_texts(available).as_str());
            },
            Error::EmptyAppId { account } => {
                r.append("Configuration error: Account '");
                r.append(account.as_str());
                r.append("' has empty app ID");
            },
            Error::EmptyAppSecret { account } => {
                r.append("Configuration error: Account '");
                r.append(account.as_str());
                r.append("' has empty app secret");
            },
            _ => {},
        }
        proof {
            assert(""@ =~= Seq::<char>::empty()) by {
                reveal_strlit("");
            }
        }
        r
    }
}

impl Error {
    pub fn file_not_found(path: String) -> (r: Self)
        ensures
            r == (Error::FileNotFound { path }),
    {
        Error::FileNotFound { path }
    }

    pub fn invalid_format(path: String, reason: String) -> (r: Self)
        ensures
            r == (Error::InvalidFormat { path, reason }),
    {
        Error::InvalidFormat { path, reason }
    }

    pub fn missing_env_var(var: String) -> (r: Self)
        ensures
            r == (Error::MissingEnvVar { var }),
    {
        Error::MissingEnvVar { var }
    }

    pub fn openai(message: String) -> (r: Self)
        ensures
            r == (Error::OpenAI { message }),
    {
        Error::OpenAI { message }
    }

    pub fn cover_image(path: String, reason: String) -> (r: Self)
        ensures
            r == (Error::CoverImage { path, reason }),
    {
        Error::CoverImage { path, reason }
    }

    pub fn markdown_parse(path: String, reason: String) -> (r: Self)
        ensures
            r == (Error::MarkdownParse { path, reason }),
    {
        Error::MarkdownParse { path, reason }
    }

    pub fn config(message: String) -> (r: Self)
        ensures
            r == (Error::Config { message }),
    {
        Error::Config { message }
    }

    pub fn generic(message: String) -> (r: Self)
        ensures
            r == (Error::Generic { message }),
    {
        Error::Generic { message }
    }

    pub fn wechat(message: String) -> (r: Self)
        ensures
            r == (Error::WeChat { message }),
    {
        Error::WeChat { message }
    }
}

} // verus!
