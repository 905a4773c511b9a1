//! Reading and writing an article: the delimited metadata block at its top,
//! and the body that follows it unchanged.

use vstd::prelude::*;

use crate::error::Error;
use crate::frontmatter::{
    empty_model, key_is, reports, validation_fault, Frontmatter, FrontmatterModel, MetaFault,
};
use crate::text::{starts_with, str_eq};
use crate::yaml::YamlValue;

verus! {

/// The line that opens the metadata block.
pub open spec fn opener() -> Seq<char> {
    "---\n"@
}

/// The line break and line that close the metadata block.
pub open spec fn closer() -> Seq<char> {
    "\n---\n"@
}

/// `c` opens with the delimiter line.
pub open spec fn opens(c: Seq<char>) -> bool {
    c.len() >= 4 && c.subrange(0, 4) == opener()
}

/// `c` holds the closing delimiter at `p`.
pub open spec fn delim_at(c: Seq<char>, p: int) -> bool {
    0 <= p && p + 5 <= c.len() && c.subrange(p, p + 5) == closer()
}

/// `p` is the first closing delimiter after the opening line.
pub open spec fn closes_at(c: Seq<char>, p: int) -> bool {
    4 <= p && delim_at(c, p) && forall|q: int| 4 <= q < p ==> !delim_at(c, q)
}

/// `c` begins with a metadata block.
pub open spec fn has_block(c: Seq<char>) -> bool {
    opens(c) && exists|p: int| 4 <= p && delim_at(c, p)
}

/// The metadata text and the body of `c`, when `c` begins with a block.
pub open spec fn split_spec(c: Seq<char>) -> Option<(Seq<char>, Seq<char>)> {
    if has_block(c) {
        let p = choose|p: int| closes_at(c, p);
        Some((c.subrange(4, p), c.subrange(p + 5, c.len() as int)))
    } else {
        None
    }
}

/// An article made of the metadata text `y` (which ends its own last line)
/// and the body `b`.
pub open spec fn join_spec(y: Seq<char>, b: Seq<char>) -> Seq<char> {
    opener() + y + "---\n"@ + b
}

/// The metadata text `y` ends with a line break and holds no delimiter line
/// that would end the block early.
pub open spec fn frames_cleanly(y: Seq<char>) -> bool {
    y.len() >= 1 && y.last() == '\n' && forall|q: int|
        0 <= q < y.len() - 1 ==> !(#[trigger] (y + "---\n"@).subrange(q, q + 5) == closer())
}

proof fn lemma_closes_unique(c: Seq<char>, p1: int, p2: int)
    requires
        closes_at(c, p1),
        closes_at(c, p2),
    ensures
        p1 == p2,
{
    if p1 < p2 {
        assert(!delim_at(c, p1));
    } else if p2 < p1 {
        assert(!delim_at(c, p2));
    }
}

proof fn lemma_split_at(c: Seq<char>, p: int)
    requires
        opens(c),
        closes_at(c, p),
    ensures
        split_spec(c) == Some((c.subrange(4, p), c.subrange(p + 5, c.len() as int))),
{
    let q = choose|q: int| closes_at(c, q);
    lemma_closes_unique(c, p, q);
}

/// Text that does not open with the delimiter line has no metadata block.
pub proof fn lemma_plain_text(s: Seq<char>)
    requires
        !opens(s),
    ensures
        split_spec(s) is None,
{
}

/// Framing a cleanly framed metadata text with a body and splitting the
/// result gives back the text (without its last line break) and the body.
pub proof fn lemma_split_join(y: Seq<char>, b: Seq<char>)
    requires
        frames_cleanly(y),
    ensures
        split_spec(join_spec(y, b)) == Some((y.drop_last(), b)),
{
    reveal_strlit("---\n");
    reveal_strlit("\n---\n");
    let c = join_spec(y, b);
    let p = 4 + y.len() - 1;
    let t = y + "---\n"@;
    assert(c =~= opener() + t + b);
    assert(c.subrange(0, 4) =~= opener());
    assert(c.subrange(p, p + 5) =~= closer()) by {
        assert forall|i: int| 0 <= i < 5 implies c.subrange(p, p + 5)[i] == closer()[i] by {
            if i == 0 {
                assert(c[p] == y.last());
            } else {
                assert(c[p + i] == t[y.len() + i - 1]);
            }
        }
    }
    assert forall|q: int| 4 <= q < p implies !delim_at(c, q) by {
        let q2 = q - 4;
        assert(t.subrange(q2, q2 + 5) =~= c.subrange(q, q + 5));
        assert(!(t.subrange(q2, q2 + 5) == closer()));
    }
    lemma_split_at(c, p);
    assert(c.subrange(4, p) =~= y.drop_last());
    assert(c.subrange(p + 5, c.len() as int) =~= b);
}

/// Whether the closing delimiter stands at `p`.
fn delim_at_exec(s: &str, n: usize, p: usize) -> (r: bool)
    requires
        n == s@.len(),
        p + 5 <= n,
    ensures
        r == delim_at(s@, p as int),
{
    proof {
        reveal_strlit("\n---\n");
    }
    let r = s.get_char(p) == '\n' && s.get_char(p + 1) == '-' && s.get_char(p + 2) == '-'
        && s.get_char(p + 3) == '-' && s.get_char(p + 4) == '\n';
    proof {
        let w = s@.subrange(p as int, p + 5);
        if r {
            assert(w =~= closer());
        } else if w == closer() {
            assert(w[0] == closer()[0]);
            assert(w[1] == closer()[1]);
            assert(w[2] == closer()[2]);
            assert(w[3] == closer()[3]);
            assert(w[4] == closer()[4]);
        }
    }
    r
}

/// Splits an article into its metadata text and its body; `None` when it
/// does not begin with a delimited block.
pub fn split_frontmatter(content: &str) -> (r: Option<(String, String)>)
    ensures
        split_spec(content@) matches Some((y, b)) ==> (r matches Some((ry, rb)) && ry@ == y
            && rb@ == b),
        split_spec(content@) is None ==> r is None,
{
    proof {
        reveal_strlit("---\n");
    }
    if !starts_with(content, "---\n") {
        return None;
    }
    let n = content.unicode_len();
    let mut p: usize = 4;
    while n >= 5 && p <= n - 5
        invariant
            n == content@.len(),
            4 <= p,
            opens(content@),
            forall|q: int| 4 <= q < p ==> !delim_at(content@, q),
        decreases n - p,
    {
        if delim_at_exec(content, n, p) {
            proof {
                lemma_split_at(content@, p as int);
            }
            let y = content.substring_char(4, p);
            let b = content.substring_char(p + 5, n);
            return Some((String::from_str(y), String::from_str(b)));
        }
        p = p + 1;
    }
    None
}

/// An article of metadata text `yaml` (ending its own last line) and `body`.
pub fn join_frontmatter(yaml: &str, body: &str) -> (r: String)
    ensures
        r@ == join_spec(yaml@, body@),
{
    let mut r = String::from_str("---\n");
    r.append(yaml);
    r.append("---\n");
    r.append(body);
    r
}

/// Which modelled field a key names: 0 to 5 for `title`, `published`,
/// `cover`, `theme`, `code` and `description`, 6 for any other key.
pub open spec fn field_of(k: YamlValue) -> u8 {
    if key_is(k, "title"@) {
        0
    } else if key_is(k, "published"@) {
        1
    } else if key_is(k, "cover"@) {
        2
    } else if key_is(k, "theme"@) {
        3
    } else if key_is(k, "code"@) {
        4
    } else if key_is(k, "description"@) {
        5
    } else {
        6
    }
}

/// The key of modelled field `i`.
pub open spec fn field_name(i: u8) -> Seq<char> {
    if i == 0 {
        "title"@
    } else if i == 1 {
        "published"@
    } else if i == 2 {
        "cover"@
    } else if i == 3 {
        "theme"@
    } else if i == 4 {
        "code"@
    } else {
        "description"@
    }
}

/// Metadata `m` with optional field `i` (0 to 4) set to `t`.
pub open spec fn with_field(m: FrontmatterModel, i: u8, t: Option<Seq<char>>) -> FrontmatterModel {
    if i == 0 {
        FrontmatterModel { title: t, ..m }
    } else if i == 1 {
        FrontmatterModel { published: t, ..m }
    } else if i == 2 {
        FrontmatterModel { cover: t, ..m }
    } else if i == 3 {
        FrontmatterModel { theme: t, ..m }
    } else {
        FrontmatterModel { code: t, ..m }
    }
}

/// The text that a scalar is written as: a string itself, a number in its
/// written form, a boolean as `true` or `false`.
pub open spec fn scalar_text(v: YamlValue) -> Option<Seq<char>> {
    match v {
        YamlValue::String(s) => Some(s@),
        YamlValue::Number(n) => Some(n@),
        YamlValue::Bool(b) => Some(
            if b {
                "true"@
            } else {
                "false"@
            },
        ),
        _ => None,
    }
}

/// The text of a scalar node.
fn text_of(v: YamlValue) -> (r: Option<String>)
    ensures
        r matches Some(s) ==> scalar_text(v) == Some(s@),
        r is None ==> scalar_text(v) is None,
{
    match v {
        YamlValue::String(s) => Some(s),
        YamlValue::Number(n) => Some(n),
        YamlValue::Bool(b) => Some(
            if b {
                String::from_str("true")
            } else {
                String::from_str("false")
            },
        ),
        _ => None,
    }
}

/// Reads one entry of the block into `m`: a modelled optional field takes a
/// scalar (as its written text) or null, `description` a scalar, and any
/// other entry is kept as it is.
pub open spec fn apply_entry(m: FrontmatterModel, k: YamlValue, v: YamlValue) -> Result<
    FrontmatterModel,
    MetaFault,
> {
    let i = field_of(k);
    if i == 6 {
        Ok(FrontmatterModel { other: m.other.push((k, v)), ..m })
    } else if i == 5 {
        match scalar_text(v) {
            Some(t) => Ok(FrontmatterModel { description: t, ..m }),
            None => Err(MetaFault::NotText { key: field_name(i) }),
        }
    } else if v is Null {
        Ok(with_field(m, i, None))
    } else {
        match scalar_text(v) {
            Some(t) => Ok(with_field(m, i, Some(t))),
            None => Err(MetaFault::NotText { key: field_name(i) }),
        }
    }
}

/// Reads the entries `es`, in order, into `m`.
pub open spec fn fold_entries(m: FrontmatterModel, es: Seq<(YamlValue, YamlValue)>) -> Result<
    FrontmatterModel,
    MetaFault,
>
    decreases es.len(),
{
    if es.len() == 0 {
        Ok(m)
    } else {
        match apply_entry(m, es[0].0, es[0].1) {
            Ok(m2) => fold_entries(m2, es.drop_first()),
            Err(f) => Err(f),
        }
    }
}

/// The metadata that a block's node describes: an empty block is empty
/// metadata, a mapping is read entry by entry, anything else is refused.
pub open spec fn decode_spec(doc: YamlValue) -> Result<FrontmatterModel, MetaFault> {
    match doc {
        YamlValue::Null => Ok(empty_model()),
        YamlValue::Mapping(es) => fold_entries(empty_model(), es@),
        _ => Err(MetaFault::NotAMapping),
    }
}

/// `decode_spec` followed by the whitelist checks.
pub open spec fn read_spec(doc: YamlValue) -> Result<FrontmatterModel, MetaFault> {
    match decode_spec(doc) {
        Ok(m) => match validation_fault(m) {
            Some(f) => Err(f),
            None => Ok(m),
        },
        Err(f) => Err(f),
    }
}

/// No entry of `es` has the key of a modelled field.
pub open spec fn no_field_keys(es: Seq<(YamlValue, YamlValue)>) -> bool {
    forall|i: int| 0 <= i < es.len() ==> field_of(#[trigger] es[i].0) == 6
}

/// The modelled fields that the keys of `s` name, in order.
pub open spec fn key_fields(s: Seq<(YamlValue, YamlValue)>) -> Seq<u8> {
    s.map_values(|e: (YamlValue, YamlValue)| field_of(e.0))
}

/// `f` when `present`, else nothing.
pub open spec fn opt_field(present: bool, f: u8) -> Seq<u8> {
    if present {
        seq![f]
    } else {
        Seq::empty()
    }
}

/// The modelled fields that metadata writes, in the order it writes them:
/// each optional field that is set, and the description when not empty.
pub open spec fn set_fields(m: FrontmatterModel) -> Seq<u8> {
    opt_field(m.title is Some, 0) + opt_field(m.published is Some, 1) + opt_field(
        m.cover is Some,
        2,
    ) + opt_field(m.theme is Some, 3) + opt_field(m.code is Some, 4) + opt_field(
        m.description.len() > 0,
        5,
    )
}

/// `d` is a mapping that lists the modelled fields of `m` (each one that is
/// set, and `description` when not empty) followed by `m`'s other entries in
/// their order.
pub open spec fn encodes(m: FrontmatterModel, d: YamlValue) -> bool {
    d matches YamlValue::Mapping(es) && es@.len() >= m.other.len() && {
        let n = es@.len() - m.other.len();
        &&& es@.skip(n) == m.other
        &&& forall|i: int| 0 <= i < n ==> field_of(#[trigger] es@[i].0) != 6
        &&& forall|i: int| 0 <= i < n ==> (#[trigger] es@[i]).1 is String
        &&& key_fields(es@.take(n)) == set_fields(m)
        &&& fold_entries(empty_model(), es@.take(n)) == Ok::<FrontmatterModel, MetaFault>(
            FrontmatterModel { other: Seq::empty(), ..m },
        )
    }
}

proof fn lemma_fold_push(m: FrontmatterModel, s: Seq<(YamlValue, YamlValue)>, e: (YamlValue, YamlValue))
    ensures
        fold_entries(m, s.push(e)) == match fold_entries(m, s) {
            Ok(m1) => apply_entry(m1, e.0, e.1),
            Err(f) => Err(f),
        },
    decreases s.len(),
{
    let t = s.push(e);
    if s.len() == 0 {
        assert(t.drop_first() =~= Seq::<(YamlValue, YamlValue)>::empty());
        assert(t[0] == e);
        match apply_entry(m, e.0, e.1) {
            Ok(m2) => {
                assert(fold_entries(m2, t.drop_first()) == Ok::<FrontmatterModel, MetaFault>(m2));
            },
            Err(_) => {},
        }
    } else {
        assert(t.drop_first() =~= s.drop_first().push(e));
        assert(t[0] == s[0]);
        match apply_entry(m, s[0].0, s[0].1) {
            Ok(m2) => lemma_fold_push(m2, s.drop_first(), e),
            Err(_) => {},
        }
    }
}

proof fn lemma_fold_append(
    m: FrontmatterModel,
    a: Seq<(YamlValue, YamlValue)>,
    b: Seq<(YamlValue, YamlValue)>,
)
    ensures
        fold_entries(m, a + b) == match fold_entries(m, a) {
            Ok(m1) => fold_entries(m1, b),
            Err(f) => Err(f),
        },
    decreases a.len(),
{
    if a.len() == 0 {
        assert(a + b =~= b);
    } else {
        assert((a + b).drop_first() =~= a.drop_first() + b);
        match apply_entry(m, a[0].0, a[0].1) {
            Ok(m2) => lemma_fold_append(m2, a.drop_first(), b),
            Err(_) => {},
        }
    }
}

proof fn lemma_fold_others(m: FrontmatterModel, b: Seq<(YamlValue, YamlValue)>)
    requires
        no_field_keys(b),
    ensures
        fold_entries(m, b) == Ok::<FrontmatterModel, MetaFault>(
            FrontmatterModel { other: m.other + b, ..m },
        ),
    decreases b.len(),
{
    if b.len() == 0 {
        assert(m.other + b =~= m.other);
    } else {
        let m2 = FrontmatterModel { other: m.other.push(b[0]), ..m };
        assert(field_of(b[0].0) == 6);
        assert(no_field_keys(b.drop_first()));
        lemma_fold_others(m2, b.drop_first());
        assert(m2.other + b.drop_first() =~= m.other + b);
    }
}

/// Reading back the node that encodes metadata gives that metadata, when
/// no other entry uses the key of a modelled field.
pub proof fn lemma_decode_encoded(m: FrontmatterModel, d: YamlValue)
    requires
        encodes(m, d),
        no_field_keys(m.other),
    ensures
        decode_spec(d) == Ok::<FrontmatterModel, MetaFault>(m),
{
    let es = d->Mapping_0@;
    let n = es.len() - m.other.len();
    assert(es =~= es.take(n) + es.skip(n));
    lemma_fold_append(empty_model(), es.take(n), es.skip(n));
    let mk = FrontmatterModel { other: Seq::<(YamlValue, YamlValue)>::empty(), ..m };
    lemma_fold_others(mk, m.other);
    assert(mk.other + m.other =~= m.other);
}

/// Which modelled field `k` names.
fn field_index(k: &YamlValue) -> (r: u8)
    ensures
        r == field_of(*k),
{
    match k {
        YamlValue::String(s) => {
            let s = s.as_str();
            if str_eq(s, "title") {
                0
            } else if str_eq(s, "published") {
                1
            } else if str_eq(s, "cover") {
                2
            } else if str_eq(s, "theme") {
                3
            } else if str_eq(s, "code") {
                4
            } else if str_eq(s, "description") {
                5
            } else {
                6
            }
        },
        _ => 6,
    }
}

fn field_key(i: u8) -> (r: String)
    ensures
        r@ == field_name(i),
{
    if i == 0 {
        String::from_str("title")
    } else if i == 1 {
        String::from_str("published")
    } else if i == 2 {
        String::from_str("cover")
    } else if i == 3 {
        String::from_str("theme")
    } else if i == 4 {
        String::from_str("code")
    } else {
        String::from_str("description")
    }
}

/// Reads the metadata that a block's node describes and checks it against
/// the whitelists.
#[verifier::loop_isolation(false)]
pub fn decode_frontmatter(doc: YamlValue) -> (r: Result<Frontmatter, Error>)
    ensures
        read_spec(doc) matches Ok(m) ==> (r matches Ok(f) && f@ == m),
        read_spec(doc) matches Err(fault) ==> (r matches Err(e) && reports(e, fault)),
{
    let ghost d = doc;
    let mut es = match doc {
        YamlValue::Null => Vec::new(),
        YamlValue::Mapping(es) => es,
        _ => {
            return Err(
                Error::Yaml { message: String::from_str("the metadata block is not a mapping") },
            );
        },
    };
    let ghost all = es@;
    assert(decode_spec(d) == fold_entries(empty_model(), all));
    let mut f = Frontmatter::new();
    while es.len() > 0
        invariant
            fold_entries(empty_model(), all) == fold_entries(f@, es@),
            decode_spec(d) == fold_entries(empty_model(), all),
        decreases es@.len(),
    {
        let ghost before = es@;
        let ghost fm = f@;
        let (k, v) = es.remove(0);
        assert(es@ =~= before.drop_first());
        assert(before[0] == (k, v));
        let i = field_index(&k);
        if i == 6 {
            f.other.push((k, v));
            assert(f@ == FrontmatterModel { other: fm.other.push((k, v)), ..fm });
        } else if i == 5 {
            match text_of(v) {
                Some(s) => {
                    f.description = s;
                },
                None => {
                    proof {
                        assert(fold_entries(fm, before) == Err::<FrontmatterModel, MetaFault>(
                            MetaFault::NotText { key: field_name(i) },
                        ));
                        assert(read_spec(doc) == Err::<FrontmatterModel, MetaFault>(
                            MetaFault::NotText { key: field_name(i) },
                        ));
                    }
                    return Err(Error::InvalidField { key: field_key(i) });
                },
            }
        } else {
            let t = match v {
                YamlValue::Null => None,
                other => match text_of(other) {
                    Some(s) => Some(s),
                    None => {
                    proof {
                        assert(fold_entries(fm, before) == Err::<FrontmatterModel, MetaFault>(
                            MetaFault::NotText { key: field_name(i) },
                        ));
                        assert(read_spec(doc) == Err::<FrontmatterModel, MetaFault>(
                            MetaFault::NotText { key: field_name(i) },
                        ));
                    }
                        return Err(Error::InvalidField { key: field_key(i) });
                    },
                },
            };
            if i == 0 {
                f.title = t;
            } else if i == 1 {
                f.published = t;
            } else if i == 2 {
                f.cover = t;
            } else if i == 3 {
                f.theme = t;
            } else {
                f.code = t;
            }
        }
    }
    match f.validate() {
        Ok(()) => Ok(f),
        Err(e) => Err(e),
    }
}

proof fn lemma_field_names(k: YamlValue, i: u8)
    requires
        i < 6,
        key_is(k, field_name(i)),
    ensures
        field_of(k) == i,
{
    reveal_strlit("title");
    reveal_strlit("published");
    reveal_strlit("cover");
    reveal_strlit("theme");
    reveal_strlit("code");
    reveal_strlit("description");
    let s = k->String_0@;
    assert("title"@.len() == 5);
    assert("published"@.len() == 9);
    assert("cover"@.len() == 5);
    assert("theme"@.len() == 5);
    assert("code"@.len() == 4);
    assert("description"@.len() == 11);
    if i == 2 {
        assert(s[0] != "title"@[0]);
    } else if i == 3 {
        assert(s[1] != "title"@[1]);
        assert(s[0] != "cover"@[0]);
    }
}

/// Appends the entry of modelled field `i` with the text `value`.
fn push_field(
    es: &mut Vec<(YamlValue, YamlValue)>,
    i: u8,
    value: String,
    Ghost(acc): Ghost<FrontmatterModel>,
)
    requires
        i < 6,
        fold_entries(empty_model(), old(es)@) == Ok::<FrontmatterModel, MetaFault>(acc),
        forall|j: int| 0 <= j < old(es)@.len() ==> field_of(#[trigger] old(es)@[j].0) != 6,
        forall|j: int| 0 <= j < old(es)@.len() ==> (#[trigger] old(es)@[j]).1 is String,
    ensures
        forall|j: int| 0 <= j < final(es)@.len() ==> (#[trigger] final(es)@[j]).1 is String,
        key_fields(final(es)@) == key_fields(old(es)@).push(i),
        fold_entries(empty_model(), final(es)@) == Ok::<FrontmatterModel, MetaFault>(
            if i == 5 {
                FrontmatterModel { description: value@, ..acc }
            } else {
                with_field(acc, i, Some(value@))
            },
        ),
        forall|j: int| 0 <= j < final(es)@.len() ==> field_of(#[trigger] final(es)@[j].0) != 6,
{
    let e = (YamlValue::String(field_key(i)), YamlValue::String(value));
    proof {
        lemma_field_names(e.0, i);
        lemma_fold_push(empty_model(), old(es)@, e);
    }
    es.push(e);
    assert(forall|j: int| 0 <= j < old(es)@.len() ==> es@[j] == old(es)@[j]);
    assert(key_fields(es@) =~= key_fields(old(es)@).push(i));
}

/// The block node of metadata: each modelled field that is set (and the
/// description when not empty), then the other entries in their order.
#[verifier::rlimit(40)]
pub fn encode_frontmatter(fm: Frontmatter) -> (d: YamlValue)
    ensures
        encodes(fm@, d),
{
    let ghost m = fm@;
    let Frontmatter { title, published, cover, theme, code, description, other } = fm;
    let mut es: Vec<(YamlValue, YamlValue)> = Vec::new();
    let ghost mut acc = empty_model();
    let ghost mut keys = Seq::<u8>::empty();
    assert(fold_entries(empty_model(), es@) == Ok::<FrontmatterModel, MetaFault>(acc));
    assert(key_fields(es@) =~= keys);
    if let Some(t) = title {
        push_field(&mut es, 0, t, Ghost(acc));
        proof {
            acc = FrontmatterModel { title: m.title, ..acc };
        }
    }
    proof {
        let o = opt_field(m.title is Some, 0);
        assert(key_fields(es@) =~= keys + o);
        keys = keys + o;
    }
    if let Some(t) = published {
        push_field(&mut es, 1, t, Ghost(acc));
        proof {
            acc = FrontmatterModel { published: m.published, ..acc };
        }
    }
    proof {
        let o = opt_field(m.published is Some, 1);
        assert(key_fields(es@) =~= keys + o);
        keys = keys + o;
    }
    if let Some(t) = cover {
        push_field(&mut es, 2, t, Ghost(acc));
        proof {
            acc = FrontmatterModel { cover: m.cover, ..acc };
        }
    }
    proof {
        let o = opt_field(m.cover is Some, 2);
        assert(key_fields(es@) =~= keys + o);
        keys = keys + o;
    }
    if let Some(t) = theme {
        push_field(&mut es, 3, t, Ghost(acc));
        proof {
            acc = FrontmatterModel { theme: m.theme, ..acc };
        }
    }
    proof {
        let o = opt_field(m.theme is Some, 3);
        assert(key_fields(es@) =~= keys + o);
        keys = keys + o;
    }
    if let Some(t) = code {
        push_field(&mut es, 4, t, Ghost(acc));
        proof {
            acc = FrontmatterModel { code: m.code, ..acc };
        }
    }
    proof {
        let o = opt_field(m.code is Some, 4);
        assert(key_fields(es@) =~= keys + o);
        keys = keys + o;
    }
    if description.unicode_len() > 0 {
        push_field(&mut es, 5, description, Ghost(acc));
        proof {
            acc = FrontmatterModel { description: m.description, ..acc };
        }
    } else {
        assert(m.description =~= Seq::<char>::empty());
    }
    proof {
        let o = opt_field(m.description.len() > 0, 5);
        assert(key_fields(es@) =~= keys + o);
        keys = keys + o;
        assert(keys =~= set_fields(m));
    }
    assert(acc == FrontmatterModel { other: Seq::empty(), ..m });
    let ghost known = es@;
    let mut rest = other;
    let ghost others = rest@;
    while rest.len() > 0
        invariant
            rest@.len() <= others.len(),
            es@ == known + others.subrange(0, others.len() - rest@.len()),
            rest@ == others.subrange(others.len() - rest@.len(), others.len() as int),
        decreases rest@.len(),
    {
        let ghost before = rest@;
        let e = rest.remove(0);
        assert(rest@ =~= before.drop_first());
        assert(e == before[0]);
        es.push(e);
        assert(rest@ =~= others.subrange(others.len() - rest@.len(), others.len() as int));
        assert(es@ =~= known + others.subrange(0, others.len() - rest@.len()));
    }
    assert(es@.skip(known.len() as int) =~= others);
    assert(es@.take(known.len() as int) =~= known);
    assert(forall|i: int| 0 <= i < known.len() ==> es@[i] == known[i]);
    YamlValue::Mapping(es)
}

/// `r` is what reading an article gives when its block text was turned into
/// `doc` by the YAML reader (or refused with a message) and its body is `body`.
pub open spec fn read_outcome(
    doc: Result<YamlValue, String>,
    body: Seq<char>,
    r: Result<(Frontmatter, String), Error>,
) -> bool {
    match doc {
        Err(msg) => r matches Err(Error::Yaml { message }) && message == msg,
        Ok(d) => match read_spec(d) {
            Ok(m) => r matches Ok((f, b)) && f@ == m && b@ == body,
            Err(fault) => r matches Err(e) && reports(e, fault),
        },
    }
}

/// Reads an article into its metadata and its body. Text without a
/// delimited block is all body, with empty metadata; otherwise `read_yaml`
/// turns the block's text into a YAML node, which is then read and checked.
pub fn parse_markdown<F: Fn(&str) -> Result<YamlValue, String>>(content: &str, read_yaml: F) -> (r:
    Result<(Frontmatter, String), Error>)
    requires
        forall|t: &str| read_yaml.requires((t,)),
    ensures
        split_spec(content@) is None ==> (r matches Ok((f, b)) && f@ == empty_model() && b@
            == content@),
        split_spec(content@) matches Some((y, body)) ==> exists|
            t: &str,
            doc: Result<YamlValue, String>,
        | t@ == y && read_yaml.ensures((t,), doc) && read_outcome(doc, body, r),
{
    match split_frontmatter(content) {
        None => Ok((Frontmatter::new(), String::from_str(content))),
        Some((y, b)) => {
            let t = y.as_str();
            let doc = read_yaml(t);
            let ghost g = doc;
            let r = match doc {
                Err(msg) => Err(Error::Yaml { message: msg }),
                Ok(d) => match decode_frontmatter(d) {
                    Ok(f) => Ok((f, b)),
                    Err(e) => Err(e),
                },
            };
            assert(read_outcome(g, b@, r));
            r
        },
    }
}

/// Writes an article: the metadata's block node, turned into text by
/// `write_yaml`, between delimiter lines, then the body unchanged.
pub fn format_markdown<G: Fn(&YamlValue) -> Result<String, String>>(
    frontmatter: Frontmatter,
    body: &str,
    write_yaml: G,
) -> (r: Result<String, Error>)
    requires
        forall|d: &YamlValue| write_yaml.requires((d,)),
    ensures
        exists|d: YamlValue, t: Result<String, String>|
            encodes(frontmatter@, d) && write_yaml.ensures((&d,), t) && match t {
                Ok(y) => r matches Ok(s) && s@ == join_spec(y@, body@),
                Err(msg) => r matches Err(Error::Yaml { message }) && message == msg,
            },
{
    let d = encode_frontmatter(frontmatter);
    let t = write_yaml(&d);
    match t {
        Ok(y) => Ok(join_frontmatter(y.as_str(), body)),
        Err(msg) => Err(Error::Yaml { message: msg }),
    }
}

/// Writing an article and reading it back gives the same metadata and body.
/// The metadata must pass its whitelists and keep no other entry under the
/// key of a modelled field. `d` is the block node that writing produces and
/// `y` the YAML writer's text for it, which must frame cleanly; the YAML
/// reader is then handed `y` without its last line break, and reading
/// yields `m` from `d`.
pub proof fn lemma_round_trip(m: FrontmatterModel, body: Seq<char>, d: YamlValue, y: Seq<char>)
    requires
        encodes(m, d),
        no_field_keys(m.other),
        validation_fault(m) is None,
        frames_cleanly(y),
    ensures
        split_spec(join_spec(y, body)) == Some((y.drop_last(), body)),
        read_spec(d) == Ok::<FrontmatterModel, MetaFault>(m),
{
    lemma_split_join(y, body);
    lemma_decode_encoded(m, d);
}

} // verus!
