//! The metadata block of an article.

use vstd::prelude::*;

use crate::error::Error;
use crate::models::{highlighter_names, is_valid_code_highlighter, is_valid_theme, theme_names};
use crate::text::str_eq;
use crate::yaml::YamlValue;

verus! {

/// An article's metadata: the modelled fields and, in `other`, every other
/// entry of the block in its original order.
#[derive(Debug, Clone, PartialEq)]
pub struct Frontmatter {
    pub title: Option<String>,
    /// Publication status: absent, `draft`, `true`, or another text.
    pub published: Option<String>,
    /// Cover image, absolute or relative to the article's directory.
    pub cover: Option<String>,
    pub theme: Option<String>,
    /// Code highlighter.
    pub code: Option<String>,
    pub description: String,
    pub other: Vec<(YamlValue, YamlValue)>,
}

/// The mathematical content of a [`Frontmatter`].
pub struct FrontmatterModel {
    pub title: Option<Seq<char>>,
    pub published: Option<Seq<char>>,
    pub cover: Option<Seq<char>>,
    pub theme: Option<Seq<char>>,
    pub code: Option<Seq<char>>,
    pub description: Seq<char>,
    pub other: Seq<(YamlValue, YamlValue)>,
}

pub open spec fn opt_view(o: Option<String>) -> Option<Seq<char>> {
    match o {
        Some(s) => Some(s@),
        None => None,
    }
}

impl View for Frontmatter {
    type V = FrontmatterModel;

    open spec fn view(&self) -> FrontmatterModel {
        FrontmatterModel {
            title: opt_view(self.title),
            published: opt_view(self.published),
            cover: opt_view(self.cover),
            theme: opt_view(self.theme),
            code: opt_view(self.code),
            description: self.description@,
            other: self.other@,
        }
    }
}

/// Metadata with no field set.
pub open spec fn empty_model() -> FrontmatterModel {
    FrontmatterModel {
        title: None,
        published: None,
        cover: None,
        theme: None,
        code: None,
        description: Seq::empty(),
        other: Seq::empty(),
    }
}

/// Whether `k` is the text key `name`.
pub open spec fn key_is(k: YamlValue, name: Seq<char>) -> bool {
    k matches YamlValue::String(s) && s@ == name
}

/// The article counts as published: its status is `true` (or `"true"` with
/// the quotes), or an extra `published` entry holds the boolean `true`.
pub open spec fn published_spec(m: FrontmatterModel) -> bool {
    m.published == Some("true"@) || m.published == Some("\"true\""@) || exists|i: int|
        0 <= i < m.other.len() && key_is(#[trigger] m.other[i].0, "published"@) && m.other[i].1
            == YamlValue::Bool(true)
}

/// What is wrong with metadata, as far as reading it can tell.
pub enum MetaFault {
    /// The block is neither a mapping nor empty.
    NotAMapping,
    /// The entry `key` should hold a text.
    NotText { key: Seq<char> },
    /// The theme is not a known one.
    BadTheme { value: Seq<char> },
    /// The code highlighter is not a known one.
    BadHighlighter { value: Seq<char> },
}

/// `e` is the error that reports `f`.
pub open spec fn reports(e: Error, f: MetaFault) -> bool {
    match f {
        MetaFault::NotAMapping => e is Yaml,
        MetaFault::NotText { key } => e matches Error::InvalidField { key: k } && k@ == key,
        MetaFault::BadTheme { value } => e matches Error::InvalidTheme { value: v } && v@ == value,
        MetaFault::BadHighlighter { value } => e matches Error::InvalidCodeHighlighter {
            value: v,
        } && v@ == value,
    }
}

/// The first whitelist that metadata breaks, theme before highlighter.
pub open spec fn validation_fault(m: FrontmatterModel) -> Option<MetaFault> {
    match m.theme {
        Some(t) if !theme_names().contains(t) => Some(MetaFault::BadTheme { value: t }),
        _ => match m.code {
            Some(c) if !highlighter_names().contains(c) => Some(
                MetaFault::BadHighlighter { value: c },
            ),
            _ => None,
        },
    }
}

/// Metadata passes validation exactly when its theme and its code
/// highlighter, each when declared, are on their whitelists.
pub proof fn lemma_whitelists(m: FrontmatterModel)
    ensures
        validation_fault(m) is None <==> (match m.theme {
            Some(t) => theme_names().contains(t),
            None => true,
        }) && (match m.code {
            Some(c) => highlighter_names().contains(c),
            None => true,
        }),
{
}

impl Default for Frontmatter {
    fn default() -> (r: Self)
        ensures
            r@ == empty_model(),
    {
        Frontmatter {
            title: None,
            published: None,
            cover: None,
            theme: None,
            code: None,
            description: String::new(),
            other: Vec::new(),
        }
    }
}

impl Frontmatter {
    pub fn new() -> (r: Self)
        ensures
            r@ == empty_model(),
    {
        Frontmatter::default()
    }

    pub fn with_title(title: &str) -> (r: Self)
        ensures
            r@ == (FrontmatterModel { title: Some(title@), ..empty_model() }),
    {
        let mut f = Frontmatter::new();
        f.title = Some(String::from_str(title));
        f
    }

    pub fn set_title(&mut self, title: &str)
        ensures
            final(self)@ == (FrontmatterModel { title: Some(title@), ..old(self)@ }),
    {
        self.title = Some(String::from_str(title));
    }

    pub fn set_published(&mut self, status: &str)
        ensures
            final(self)@ == (FrontmatterModel { published: Some(status@), ..old(self)@ }),
    {
        self.published = Some(String::from_str(status));
    }

    pub fn set_cover(&mut self, cover: &str)
        ensures
            final(self)@ == (FrontmatterModel { cover: Some(cover@), ..old(self)@ }),
    {
        self.cover = Some(String::from_str(cover));
    }

    pub fn set_theme(&mut self, theme: &str)
        ensures
            final(self)@ == (FrontmatterModel { theme: Some(theme@), ..old(self)@ }),
    {
        self.theme = Some(String::from_str(theme));
    }

    pub fn set_code_highlighter(&mut self, code: &str)
        ensures
            final(self)@ == (FrontmatterModel { code: Some(code@), ..old(self)@ }),
    {
        self.code = Some(String::from_str(code));
    }

    /// Whether the article is already published.
    pub fn is_published(&self) -> (r: bool)
        ensures
            r == published_spec(self@),
    {
        if let Some(p) = &self.published {
            if str_eq(p.as_str(), "true") || str_eq(p.as_str(), "\"true\"") {
                return true;
            }
        }
        let mut i: usize = 0;
        while i < self.other.len()
            invariant
                i <= self.other@.len(),
                forall|j: int|
                    0 <= j < i ==> !(key_is(#[trigger] self.other@[j].0, "published"@)
                        && self.other@[j].1 == YamlValue::Bool(true)),
            decreases self.other@.len() - i,
        {
            let entry = &self.other[i];
            if let YamlValue::String(k) = &entry.0 {
                if str_eq(k.as_str(), "published") {
                    if let YamlValue::Bool(b) = &entry.1 {
                        if *b {
                            return true;
                        }
                    }
                }
            }
            i = i + 1;
        }
        false
    }

    /// Whether the article was uploaded as a draft.
    pub fn is_draft(&self) -> (r: bool)
        ensures
            r == (self@.published == Some("draft"@)),
    {
        match &self.published {
            Some(p) => str_eq(p.as_str(), "draft"),
            None => false,
        }
    }

    /// Whether the article has no publication status.
    pub fn is_unpublished(&self) -> (r: bool)
        ensures
            r == (self@.published is None || self@.published == Some(Seq::<char>::empty())),
    {
        match &self.published {
            Some(p) => {
                assert(p@.len() == 0 ==> p@ =~= Seq::<char>::empty());
                p.unicode_len() == 0
            },
            None => true,
        }
    }

    /// Checks the theme and the code highlighter against their whitelists.
    pub fn validate(&self) -> (r: Result<(), Error>)
        ensures
            validation_fault(self@) is None ==> r is Ok,
            validation_fault(self@) matches Some(f) ==> (r matches Err(e) && reports(e, f)),
    {
        if let Some(t) = &self.theme {
            if !is_valid_theme(t.as_str()) {
                return Err(Error::InvalidTheme { value: t.clone() });
            }
        }
        if let Some(c) = &self.code {
            if !is_valid_code_highlighter(c.as_str()) {
                return Err(Error::InvalidCodeHighlighter { value: c.clone() });
            }
        }
        Ok(())
    }
}

} // verus!
