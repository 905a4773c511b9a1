//! The two AI backends behind one contract: the requests that describe a
//! scene and generate an image, reading their answers, and the prompt and
//! file name of a cover.

use vstd::prelude::*;

use base64::Engine;

use crate::error::Error;
use crate::models::AiProvider;
use crate::text::{clone_opt, starts_with, trim, trim_spec};

verus! {

/// A backend with its key and an optional endpoint override.
#[derive(Debug, PartialEq)]
pub enum ProviderConfig {
    OpenAI { api_key: String, base_url: Option<String> },
    Gemini { api_key: String, base_url: Option<String> },
}

/// The default endpoint of OpenAI.
pub open spec fn openai_base() -> Seq<char> {
    "https://api.openai.com/v1"@
}

/// The default endpoint of Gemini.
pub open spec fn gemini_base() -> Seq<char> {
    "https://generativelanguage.googleapis.com/v1beta/models"@
}

impl ProviderConfig {
    pub open spec fn key(&self) -> Seq<char> {
        match self {
            ProviderConfig::OpenAI { api_key, .. } => api_key@,
            ProviderConfig::Gemini { api_key, .. } => api_key@,
        }
    }

    /// The endpoint: the override if given, else the backend's default.
    pub open spec fn base(&self) -> Seq<char> {
        match self {
            ProviderConfig::OpenAI { base_url, .. } => match base_url {
                Some(u) => u@,
                None => openai_base(),
            },
            ProviderConfig::Gemini { base_url, .. } => match base_url {
                Some(u) => u@,
                None => gemini_base(),
            },
        }
    }

    pub open spec fn name_spec(&self) -> Seq<char> {
        match self {
            ProviderConfig::OpenAI { .. } => "OpenAI"@,
            ProviderConfig::Gemini { .. } => "Gemini"@,
        }
    }

    /// The backend that a configuration selects.
    pub fn from_provider(p: &AiProvider) -> (r: Self)
        ensures
            p matches AiProvider::OpenAI { api_key, base_url } ==> r == (ProviderConfig::OpenAI {
                api_key: *api_key,
                base_url: *base_url,
            }),
            p matches AiProvider::Gemini { api_key, base_url } ==> r == (ProviderConfig::Gemini {
                api_key: *api_key,
                base_url: *base_url,
            }),
    {
        match p {
            AiProvider::OpenAI { api_key, base_url } => ProviderConfig::OpenAI {
                api_key: api_key.clone(),
                base_url: clone_opt(base_url),
            },
            AiProvider::Gemini { api_key, base_url } => ProviderConfig::Gemini {
                api_key: api_key.clone(),
                base_url: clone_opt(base_url),
            },
        }
    }

    pub fn api_key(&self) -> (r: &str)
        ensures
            r@ == self.key(),
    {
        match self {
            ProviderConfig::OpenAI { api_key, .. } => api_key.as_str(),
            ProviderConfig::Gemini { api_key, .. } => api_key.as_str(),
        }
    }

    pub fn base_url(&self) -> (r: &str)
        ensures
            r@ == self.base(),
    {
        match self {
            ProviderConfig::OpenAI { base_url, .. } => match base_url {
                Some(u) => u.as_str(),
                None => "https://api.openai.com/v1",
            },
            ProviderConfig::Gemini { base_url, .. } => match base_url {
                Some(u) => u.as_str(),
                None => "https://generativelanguage.googleapis.com/v1beta/models",
            },
        }
    }

    pub fn provider_name(&self) -> (r: &'static str)
        ensures
            r@ == self.name_spec(),
    {
        match self {
            ProviderConfig::OpenAI { .. } => "OpenAI",
            ProviderConfig::Gemini { .. } => "Gemini",
        }
    }
}

/// The models and image settings used with a backend.
#[derive(Debug, PartialEq)]
pub struct ModelConfig {
    pub text_model: String,
    pub image_model: String,
    pub image_size: String,
    pub image_quality: String,
}

/// The models OpenAI is used with unless told otherwise.
pub open spec fn openai_models(m: ModelConfig) -> bool {
    m.text_model@ == "gpt-4o-mini"@ && m.image_model@ == "dall-e-3"@ && m.image_size@
        == "1536x1024"@ && m.image_quality@ == "standard"@
}

/// The models Gemini is used with unless told otherwise.
pub open spec fn gemini_models(m: ModelConfig) -> bool {
    m.text_model@ == "gemini-2.5-flash"@ && m.image_model@ == "imagen-4.0-generate-001"@
        && m.image_size@ == "16:9"@ && m.image_quality@ == "high"@
}

/// `m` is the default model set of backend `p`.
pub open spec fn default_models(p: ProviderConfig, m: ModelConfig) -> bool {
    match p {
        ProviderConfig::OpenAI { .. } => openai_models(m),
        ProviderConfig::Gemini { .. } => gemini_models(m),
    }
}

impl ModelConfig {
    pub fn openai() -> (r: Self)
        ensures
            r.text_model@ == "gpt-4o-mini"@,
            r.image_model@ == "dall-e-3"@,
            r.image_size@ == "1536x1024"@,
            r.image_quality@ == "standard"@,
    {
        ModelConfig {
            text_model: String::from_str("gpt-4o-mini"),
            image_model: String::from_str("dall-e-3"),
            image_size: String::from_str("1536x1024"),
            image_quality: String::from_str("standard"),
        }
    }

    pub fn gemini() -> (r: Self)
        ensures
            r.text_model@ == "gemini-2.5-flash"@,
            r.image_model@ == "imagen-4.0-generate-001"@,
            r.image_size@ == "16:9"@,
            r.image_quality@ == "high"@,
    {
        ModelConfig {
            text_model: String::from_str("gemini-2.5-flash"),
            image_model: String::from_str("imagen-4.0-generate-001"),
            image_size: String::from_str("16:9"),
            image_quality: String::from_str("high"),
        }
    }

    /// The models a backend uses unless told otherwise.
    pub fn for_provider(p: &ProviderConfig) -> (r: Self)
        ensures
            default_models(*p, r),
    {
        match p {
            ProviderConfig::OpenAI { .. } => ModelConfig::openai(),
            ProviderConfig::Gemini { .. } => ModelConfig::gemini(),
        }
    }
}

impl Default for ModelConfig {
    fn default() -> (r: Self)
        ensures
            openai_models(r),
    {
        ModelConfig::openai()
    }
}

/// A lower-case hexadecimal digit.
pub open spec fn hex_digit(d: nat) -> char {
    if d == 0 {
        '0'
    } else if d == 1 {
        '1'
    } else if d == 2 {
        '2'
    } else if d == 3 {
        '3'
    } else if d == 4 {
        '4'
    } else if d == 5 {
        '5'
    } else if d == 6 {
        '6'
    } else if d == 7 {
        '7'
    } else if d == 8 {
        '8'
    } else if d == 9 {
        '9'
    } else if d == 10 {
        'a'
    } else if d == 11 {
        'b'
    } else if d == 12 {
        'c'
    } else if d == 13 {
        'd'
    } else if d == 14 {
        'e'
    } else {
        'f'
    }
}

/// How `serde_json` writes one character inside a string: `"` and `\` and
/// the controls with short forms escaped by a backslash, the other controls
/// below U+0020 as `\u00` and two lower-case hex digits, anything else as is.
pub open spec fn json_char(c: char) -> Seq<char> {
    let u = c as u32;
    if c == '"' {
        seq!['\\', '"']
    } else if c == '\\' {
        seq!['\\', '\\']
    } else if u == 8 {
        seq!['\\', 'b']
    } else if u == 9 {
        seq!['\\', 't']
    } else if u == 10 {
        seq!['\\', 'n']
    } else if u == 12 {
        seq!['\\', 'f']
    } else if u == 13 {
        seq!['\\', 'r']
    } else if u < 0x20 {
        seq!['\\', 'u', '0', '0', hex_digit((u / 16) as nat), hex_digit((u % 16) as nat)]
    } else {
        seq![c]
    }
}

/// The characters of `s`, each written as inside a JSON string.
pub open spec fn json_body(s: Seq<char>) -> Seq<char>
    decreases s.len(),
{
    if s.len() == 0 {
        Seq::empty()
    } else {
        json_body(s.drop_last()) + json_char(s.last())
    }
}

/// A JSON string literal, as `serde_json` writes one.
pub open spec fn json_quoted(s: Seq<char>) -> Seq<char> {
    seq!['"'] + json_body(s) + seq!['"']
}

/// The text found at a JSON pointer of a JSON document, if the document
/// parses and the pointer reaches a string.
pub uninterp spec fn json_text_at(doc: Seq<char>, pointer: Seq<char>) -> Option<Seq<char>>;

/// Whether a JSON pointer reaches a value of a JSON document.
pub uninterp spec fn json_has(doc: Seq<char>, pointer: Seq<char>) -> bool;

/// The bytes of a text in standard padded base64, if it is one.
pub uninterp spec fn base64_decoded(s: Seq<char>) -> Option<Seq<u8>>;

/// Relies on `serde_json::to_string` for a `str`: the text between quotes,
/// escaped by `serde_json`'s escape table; serialising a `str` does not fail.
#[verifier::external_body]
fn json_string(s: &str) -> (r: String)
    ensures
        r@ == json_quoted(s@),
{
    serde_json::to_string(s).unwrap_or_default()
}

/// Relies on `serde_json::Value::pointer`, on the document that
/// `serde_json::from_str` reads.
#[verifier::external_body]
fn json_str_at(doc: &str, pointer: &str) -> (r: Option<String>)
    ensures
        r matches Some(s) ==> json_text_at(doc@, pointer@) == Some(s@),
        r is None ==> json_text_at(doc@, pointer@) is None,
{
    let v: serde_json::Value = match serde_json::from_str(doc) {
        Ok(v) => v,
        Err(_) => return None,
    };
    match v.pointer(pointer) {
        Some(serde_json::Value::String(s)) => Some(s.clone()),
        _ => None,
    }
}

/// Relies on `serde_json::Value::pointer`, on the document that
/// `serde_json::from_str` reads.
#[verifier::external_body]
fn json_present(doc: &str, pointer: &str) -> (r: bool)
    ensures
        r == json_has(doc@, pointer@),
{
    match serde_json::from_str::<serde_json::Value>(doc) {
        Ok(v) => v.pointer(pointer).is_some(),
        Err(_) => false,
    }
}

/// Relies on `base64`'s standard engine `decode`.
#[verifier::external_body]
fn decode_base64(s: &str) -> (r: Option<Vec<u8>>)
    ensures
        r matches Some(b) ==> base64_decoded(s@) == Some(b@),
        r is None ==> base64_decoded(s@) is None,
{
    base64::engine::general_purpose::STANDARD.decode(s).ok()
}

/// Relies on `uuid::Uuid::new_v4` and its simple form: 32 lower-case
/// hexadecimal digits, random.
#[verifier::external_body]
fn random_suffix() -> (r: String)
    ensures
        r@.len() == 32,
        forall|i: int| 0 <= i < 32 ==> is_lower_hex(#[trigger] r@[i]),
{
    uuid::Uuid::new_v4().simple().to_string()
}

pub open spec fn is_lower_hex(c: char) -> bool {
    ('0' <= c && c <= '9') || ('a' <= c && c <= 'f')
}

/// A request to a backend: where it goes, the bearer token if the key goes
/// in a header, and the JSON body.
#[derive(Debug, PartialEq)]
pub struct ApiRequest {
    pub url: String,
    pub bearer: Option<String>,
    pub body: String,
}

/// How much of an article is sent for a scene description.
pub const SCENE_EXCERPT_CHARS: usize = 2000;

/// The start of an article that is sent for a scene description.
pub open spec fn excerpt(content: Seq<char>) -> Seq<char> {
    if content.len() > SCENE_EXCERPT_CHARS {
        content.take(SCENE_EXCERPT_CHARS as int)
    } else {
        content
    }
}

/// The instruction that asks OpenAI for a scene.
pub open spec fn scene_instruction() -> Seq<char> {
    "Generate a 2-sentence visual scene description in English for a cover image based on the article content."@
}

/// What Gemini is asked about an article's excerpt.
pub open spec fn gemini_scene_text(x: Seq<char>) -> Seq<char> {
    "Generate a 2-sentence visual scene description in English for a cover image based on this article content:\n\n"@
        + x + "\n\nScene description:"@
}

/// What OpenAI is told about an article's excerpt.
pub open spec fn openai_scene_text(x: Seq<char>) -> Seq<char> {
    "Article content:\n\n"@ + x + "\n\nScene description:"@
}

/// The request that asks a backend for a scene description of `content`.
pub open spec fn scene_request_spec(p: ProviderConfig, m: ModelConfig, content: Seq<char>) -> (
    Seq<char>,
    Option<Seq<char>>,
    Seq<char>,
) {
    let x = excerpt(content);
    match p {
        ProviderConfig::OpenAI { .. } => (
            p.base() + "/chat/completions"@,
            Some(p.key()),
            "{\"model\":"@ + json_quoted(m.text_model@)
                + ",\"messages\":[{\"role\":\"system\",\"content\":"@ + json_quoted(
                scene_instruction(),
            ) + "},{\"role\":\"user\",\"content\":"@ + json_quoted(openai_scene_text(x))
                + "}],\"temperature\":0.7}"@,
        ),
        ProviderConfig::Gemini { .. } => (
            p.base() + "/"@ + m.text_model@ + ":generateContent?key="@ + p.key(),
            None,
            "{\"contents\":[{\"parts\":[{\"text\":"@ + json_quoted(gemini_scene_text(x))
                + "}]}],\"generationConfig\":{\"temperature\":0.7}}"@,
        ),
    }
}

/// The request that asks a backend for an image of `prompt`.
pub open spec fn image_request_spec(p: ProviderConfig, m: ModelConfig, prompt: Seq<char>) -> (
    Seq<char>,
    Option<Seq<char>>,
    Seq<char>,
) {
    match p {
        ProviderConfig::OpenAI { .. } => (
            p.base() + "/images/generations"@,
            Some(p.key()),
            "{\"model\":"@ + json_quoted(m.image_model@) + ",\"prompt\":"@ + json_quoted(prompt)
                + ",\"size\":"@ + json_quoted(m.image_size@) + ",\"quality\":"@ + json_quoted(
                m.image_quality@,
            ) + ",\"n\":1}"@,
        ),
        ProviderConfig::Gemini { .. } => (
            p.base() + "/"@ + m.image_model@ + ":predict?key="@ + p.key(),
            None,
            "{\"instances\":[{\"prompt\":"@ + json_quoted(prompt)
                + "}],\"parameters\":{\"numberOfImages\":1,\"aspectRatio\":\"16:9\"}}"@,
        ),
    }
}

/// The view of a request.
pub open spec fn request_view(r: ApiRequest) -> (Seq<char>, Option<Seq<char>>, Seq<char>) {
    (
        r.url@,
        match r.bearer {
            Some(b) => Some(b@),
            None => None,
        },
        r.body@,
    )
}

/// The first `SCENE_EXCERPT_CHARS` characters of `content`.
fn excerpt_of(content: &str) -> (r: &str)
    ensures
        r@ == excerpt(content@),
{
    let n = content.unicode_len();
    if n > SCENE_EXCERPT_CHARS {
        content.substring_char(0, SCENE_EXCERPT_CHARS)
    } else {
        content
    }
}

/// The request for a scene description of an article.
pub fn scene_request(p: &ProviderConfig, m: &ModelConfig, content: &str) -> (r: ApiRequest)
    ensures
        request_view(r) == scene_request_spec(*p, *m, content@),
{
    let x = excerpt_of(content);
    match p {
        ProviderConfig::OpenAI { .. } => {
            let mut url = String::from_str(p.base_url());
            url.append("/chat/completions");
            let mut text = String::from_str("Article content:\n\n");
            text.append(x);
            text.append("\n\nScene description:");
            let mut body = String::from_str("{\"model\":");
            body.append(json_string(m.text_model.as_str()).as_str());
            body.append(",\"messages\":[{\"role\":\"system\",\"content\":");
            body.append(
                json_string(
                    "Generate a 2-sentence visual scene description in English for a cover image based on the article content.",
                ).as_str(),
            );
            body.append("},{\"role\":\"user\",\"content\":");
            body.append(json_string(text.as_str()).as_str());
            body.append("}],\"temperature\":0.7}");
            ApiRequest { url, bearer: Some(String::from_str(p.api_key())), body }
        },
        ProviderConfig::Gemini { .. } => {
            let mut url = String::from_str(p.base_url());
            url.append("/");
            url.append(m.text_model.as_str());
            url.append(":generateContent?key=");
            url.append(p.api_key());
            let mut text = String::from_str(
                "Generate a 2-sentence visual scene description in English for a cover image based on this article content:\n\n",
            );
            text.append(x);
            text.append("\n\nScene description:");
            let mut body = String::from_str("{\"contents\":[{\"parts\":[{\"text\":");
            body.append(json_string(text.as_str()).as_str());
            body.append("}]}],\"generationConfig\":{\"temperature\":0.7}}");
            ApiRequest { url, bearer: None, body }
        },
    }
}

/// The request for an image of a prompt.
pub fn image_request(p: &ProviderConfig, m: &ModelConfig, prompt: &str) -> (r: ApiRequest)
    ensures
        request_view(r) == image_request_spec(*p, *m, prompt@),
{
    match p {
        ProviderConfig::OpenAI { .. } => {
            let mut url = String::from_str(p.base_url());
            url.append("/images/generations");
            let mut body = String::from_str("{\"model\":");
            body.append(json_string(m.image_model.as_str()).as_str());
            body.append(",\"prompt\":");
            body.append(json_string(prompt).as_str());
            body.append(",\"size\":");
            body.append(json_string(m.image_size.as_str()).as_str());
            body.append(",\"quality\":");
            body.append(json_string(m.image_quality.as_str()).as_str());
            body.append(",\"n\":1}");
            ApiRequest { url, bearer: Some(String::from_str(p.api_key())), body }
        },
        ProviderConfig::Gemini { .. } => {
            let mut url = String::from_str(p.base_url());
            url.append("/");
            url.append(m.image_model.as_str());
            url.append(":predict?key=");
            url.append(p.api_key());
            let mut body = String::from_str("{\"instances\":[{\"prompt\":");
            body.append(json_string(prompt).as_str());
            body.append("}],\"parameters\":{\"numberOfImages\":1,\"aspectRatio\":\"16:9\"}}");
            ApiRequest { url, bearer: None, body }
        },
    }
}

/// The scene used when a backend describes nothing.
pub open spec fn fallback_scene() -> Seq<char> {
    "A serene landscape with rolling hills under a soft, dreamy sky filled with gentle clouds. The scene evokes a sense of peaceful contemplation and infinite possibilities."@
}

/// The scene that an extracted answer gives: the answer without surrounding
/// whitespace, or the fallback scene when nothing remains.
pub open spec fn scene_spec(extracted: Option<Seq<char>>) -> Seq<char> {
    let t = match extracted {
        Some(x) => trim_spec(x),
        None => Seq::empty(),
    };
    if t.len() == 0 {
        fallback_scene()
    } else {
        t
    }
}

/// Where a backend's answer holds the scene description.
pub open spec fn scene_pointer(p: ProviderConfig) -> Seq<char> {
    match p {
        ProviderConfig::OpenAI { .. } => "/choices/0/message/content"@,
        ProviderConfig::Gemini { .. } => "/candidates/0/content/parts/0/text"@,
    }
}

/// The scene description for the text extracted from a backend's answer.
pub fn scene_from_text(extracted: Option<String>) -> (r: String)
    ensures
        r@ == scene_spec(
            match extracted {
                Some(x) => Some(x@),
                None => None,
            },
        ),
{
    let t = match extracted {
        Some(x) => trim(x.as_str()),
        None => String::new(),
    };
    if t.unicode_len() == 0 {
        String::from_str(
            "A serene landscape with rolling hills under a soft, dreamy sky filled with gentle clouds. The scene evokes a sense of peaceful contemplation and infinite possibilities.",
        )
    } else {
        t
    }
}

/// The scene description in a backend's answer to a scene request; an
/// answer that holds no usable text gives the fallback scene.
pub fn scene_from_response(p: &ProviderConfig, response: &str) -> (r: String)
    ensures
        r@ == scene_spec(json_text_at(response@, scene_pointer(*p))),
{
    let pointer = match p {
        ProviderConfig::OpenAI { .. } => "/choices/0/message/content",
        ProviderConfig::Gemini { .. } => "/candidates/0/content/parts/0/text",
    };
    scene_from_text(json_str_at(response, pointer))
}

/// The image prompt for a scene: a fixed wide, painterly framing around it.
pub open spec fn prompt_spec(scene: Seq<char>) -> Seq<char> {
    "Create a wide, Ghibli-style image to represent this scene: "@ + scene
}

pub fn create_dalle_prompt(scene_description: &str) -> (r: String)
    ensures
        r@ == prompt_spec(scene_description@),
{
    let mut r = String::from_str("Create a wide, Ghibli-style image to represent this scene: ");
    r.append(scene_description);
    r
}

/// A generated image: a URL to fetch, or the image itself in base64.
#[derive(Debug, PartialEq)]
pub enum ImageRef {
    Url(String),
    Inline(String),
}

/// `i` is the URL `x` (when `is_url`) or the inline data `x`.
pub open spec fn image_is(i: ImageRef, is_url: bool, x: Seq<char>) -> bool {
    if is_url {
        i matches ImageRef::Url(u) && u@ == x
    } else {
        i matches ImageRef::Inline(d) && d@ == x
    }
}

/// The prefix that marks an inline image in a single-text reference.
pub open spec fn inline_marker() -> Seq<char> {
    "base64:"@
}

impl ImageRef {
    /// Reads a single-text reference: `base64:` and the data, or a URL.
    pub fn from_reference(s: &str) -> (r: Self)
        ensures
            s@.len() >= 7 && s@.take(7) == inline_marker() ==> image_is(r, false, s@.skip(7)),
            !(s@.len() >= 7 && s@.take(7) == inline_marker()) ==> image_is(r, true, s@),
    {
        proof {
            reveal_strlit("base64:");
        }
        if starts_with(s, "base64:") {
            let n = s.unicode_len();
            ImageRef::Inline(String::from_str(s.substring_char(7, n)))
        } else {
            ImageRef::Url(String::from_str(s))
        }
    }

    /// The single-text reference: `base64:` and the data, or the URL.
    pub fn to_reference(&self) -> (r: String)
        ensures
            self matches ImageRef::Inline(d) ==> r@ == inline_marker() + d@,
            self matches ImageRef::Url(u) ==> r@ == u@,
    {
        match self {
            ImageRef::Inline(d) => {
                let mut r = String::from_str("base64:");
                r.append(d.as_str());
                r
            },
            ImageRef::Url(u) => u.clone(),
        }
    }
}

/// What a backend's image answer yields, given what it holds: for OpenAI,
/// the URL else the base64 data; for Gemini, when it has a prediction, its
/// base64 data else the prediction itself as text.
pub open spec fn image_spec(
    p: ProviderConfig,
    has_prediction: bool,
    primary: Option<Seq<char>>,
    secondary: Option<Seq<char>>,
) -> Option<(bool, Seq<char>)> {
    match p {
        ProviderConfig::OpenAI { .. } => match primary {
            Some(u) => Some((true, u)),
            None => match secondary {
                Some(d) => Some((false, d)),
                None => None,
            },
        },
        ProviderConfig::Gemini { .. } => if !has_prediction {
            None
        } else {
            match primary {
                Some(d) => Some((false, d)),
                None => match secondary {
                    Some(d) => Some((false, d)),
                    None => None,
                },
            }
        },
    }
}

/// Where a backend's image answer holds what `image_spec` reads: the
/// prediction (Gemini only), the first choice and the second.
pub open spec fn image_pointers(p: ProviderConfig) -> (Seq<char>, Seq<char>, Seq<char>) {
    match p {
        ProviderConfig::OpenAI { .. } => (
            "/data/0"@,
            "/data/0/url"@,
            "/data/0/b64_json"@,
        ),
        ProviderConfig::Gemini { .. } => (
            "/predictions/0"@,
            "/predictions/0/bytesBase64Encoded"@,
            "/predictions/0"@,
        ),
    }
}

pub open spec fn opt_seq(o: Option<String>) -> Option<Seq<char>> {
    match o {
        Some(s) => Some(s@),
        None => None,
    }
}

/// Why an image answer yields no image: a Gemini answer without a
/// prediction, or an answer without image data.
pub open spec fn image_fault(p: ProviderConfig, has_prediction: bool) -> Seq<char> {
    match p {
        ProviderConfig::OpenAI { .. } => "Failed to extract image data from OpenAI response"@,
        ProviderConfig::Gemini { .. } => if has_prediction {
            "Failed to extract image data from Gemini response"@
        } else {
            "No predictions found in Gemini response"@
        },
    }
}

/// The image that the fields of a backend's answer describe.
pub fn image_from_fields(
    p: &ProviderConfig,
    has_prediction: bool,
    primary: Option<String>,
    secondary: Option<String>,
) -> (r: Result<ImageRef, Error>)
    ensures
        image_spec(*p, has_prediction, opt_seq(primary), opt_seq(secondary)) matches Some(
            (is_url, x),
        ) ==> (r matches Ok(i) && image_is(i, is_url, x)),
        image_spec(*p, has_prediction, opt_seq(primary), opt_seq(secondary)) is None ==> (r matches Err(
            Error::OpenAI { message },
        ) && message@ == image_fault(*p, has_prediction)),
{
    match p {
        ProviderConfig::OpenAI { .. } => match primary {
            Some(u) => Ok(ImageRef::Url(u)),
            None => match secondary {
                Some(d) => Ok(ImageRef::Inline(d)),
                None => Err(
                    Error::OpenAI {
                        message: String::from_str(
                            "Failed to extract image data from OpenAI response",
                        ),
                    },
                ),
            },
        },
        ProviderConfig::Gemini { .. } => {
            if !has_prediction {
                return Err(
                    Error::OpenAI {
                        message: String::from_str("No predictions found in Gemini response"),
                    },
                );
            }
            match primary {
                Some(d) => Ok(ImageRef::Inline(d)),
                None => match secondary {
                    Some(d) => Ok(ImageRef::Inline(d)),
                    None => Err(
                        Error::OpenAI {
                            message: String::from_str(
                                "Failed to extract image data from Gemini response",
                            ),
                        },
                    ),
                },
            }
        },
    }
}

/// The image in a backend's answer to an image request.
pub fn image_from_response(p: &ProviderConfig, response: &str) -> (r: Result<ImageRef, Error>)
    ensures
        ({
            let (ptr0, ptr1, ptr2) = image_pointers(*p);
            image_spec(
                *p,
                json_has(response@, ptr0),
                json_text_at(response@, ptr1),
                json_text_at(response@, ptr2),
            ) matches Some((is_url, x)) ==> (r matches Ok(i) && image_is(i, is_url, x))
        }),
        ({
            let (ptr0, ptr1, ptr2) = image_pointers(*p);
            image_spec(
                *p,
                json_has(response@, ptr0),
                json_text_at(response@, ptr1),
                json_text_at(response@, ptr2),
            ) is None ==> (r matches Err(Error::OpenAI { message }) && message@ == image_fault(
                *p,
                json_has(response@, ptr0),
            ))
        }),
{
    let (ptr0, ptr1, ptr2) = match p {
        ProviderConfig::OpenAI { .. } => ("/data/0", "/data/0/url", "/data/0/b64_json"),
        ProviderConfig::Gemini { .. } => (
            "/predictions/0",
            "/predictions/0/bytesBase64Encoded",
            "/predictions/0",
        ),
    };
    let has = json_present(response, ptr0);
    let a = json_str_at(response, ptr1);
    let b = json_str_at(response, ptr2);
    image_from_fields(p, has, a, b)
}

/// The bytes of an inline image; fails when the data is not base64.
pub fn decode_inline_image(data: &str) -> (r: Result<Vec<u8>, Error>)
    ensures
        base64_decoded(data@) matches Some(b) ==> (r matches Ok(v) && v@ == b),
        base64_decoded(data@) is None ==> (r matches Err(Error::OpenAI { .. })),
{
    match decode_base64(data) {
        Some(b) => Ok(b),
        None => Err(
            Error::OpenAI { message: String::from_str("Failed to decode base64 image") },
        ),
    }
}

/// The file name of a generated cover: the article's stem, `_cover_`, a
/// suffix, and `.png`.
pub open spec fn cover_name_spec(stem: Seq<char>, suffix: Seq<char>) -> Seq<char> {
    stem + "_cover_"@ + suffix + ".png"@
}

pub fn cover_file_name(stem: &str, suffix: &str) -> (r: String)
    ensures
        r@ == cover_name_spec(stem@, suffix@),
{
    let mut r = String::from_str(stem);
    r.append("_cover_");
    r.append(suffix);
    r.append(".png");
    r
}

/// A fresh cover file name for an article stem, with a random suffix of 32
/// lower-case hexadecimal digits.
pub fn new_cover_file_name(stem: &str) -> (r: String)
    ensures
        exists|suffix: Seq<char>|
            suffix.len() == 32 && (forall|i: int| 0 <= i < 32 ==> is_lower_hex(#[trigger] suffix[i]))
                && r@ == cover_name_spec(stem@, suffix),
{
    let suffix = random_suffix();
    cover_file_name(stem, suffix.as_str())
}

/// A backend together with the models it is used with.
#[derive(Debug)]
pub struct UniversalAIClient {
    pub config: ProviderConfig,
    pub model_config: ModelConfig,
}

impl UniversalAIClient {
    /// A client for `config`, with `model_config` or else the backend's
    /// default models.
    pub fn new(config: ProviderConfig, model_config: Option<ModelConfig>) -> (r: Self)
        ensures
            r.config == config,
            model_config matches Some(m) ==> r.model_config == m,
            model_config is None ==> default_models(config, r.model_config),
    {
        let model_config = match model_config {
            Some(m) => m,
            None => ModelConfig::for_provider(&config),
        };
        UniversalAIClient { config, model_config }
    }

    /// The request for a scene description of an article.
    pub fn scene_request(&self, content: &str) -> (r: ApiRequest)
        ensures
            request_view(r) == scene_request_spec(self.config, self.model_config, content@),
    {
        scene_request(&self.config, &self.model_config, content)
    }

    /// The request for an image of a prompt.
    pub fn image_request(&self, prompt: &str) -> (r: ApiRequest)
        ensures
            request_view(r) == image_request_spec(self.config, self.model_config, prompt@),
    {
        image_request(&self.config, &self.model_config, prompt)
    }

    /// The scene description in the answer to a scene request.
    pub fn scene_from_response(&self, response: &str) -> (r: String)
        ensures
            r@ == scene_spec(json_text_at(response@, scene_pointer(self.config))),
    {
        scene_from_response(&self.config, response)
    }

    /// The image prompt for a scene.
    pub fn create_dalle_prompt(&self, scene_description: &str) -> (r: String)
        ensures
            r@ == prompt_spec(scene_description@),
    {
        create_dalle_prompt(scene_description)
    }

    /// The error for a request that the backend answered with a non-success
    /// `status`, keeping the backend's name and the answer's `body`.
    pub fn request_failed(&self, status: u16, body: String) -> (r: Error)
        ensures
            r matches Error::Provider { provider, status: s, body: b } && provider@
                == self.config.name_spec() && s == status && b == body,
    {
        Error::Provider {
            provider: String::from_str(self.config.provider_name()),
            status,
            body,
        }
    }
}

} // verus!
