use vstd::prelude::*;
use vstd::string::*;
use crate::enums::{ImageState, OperatingSystem, state_text, os_param_text};
use crate::ids::ImageId;
use crate::numbers::{dec_text, u32_text, is_canon_int, digits_val, parse_u32};
use crate::errors::ImgapiError;
use crate::ids::{uuid_grammar, uuid_normal};
use crate::enums::os_of_text;
use crate::text::{str_eq, lower_of};

verus! {

/// Search criteria for a catalog listing. Every field is independently
/// optional; an empty filter matches everything.
#[derive(Debug, Clone)]
pub struct ImageFilter {
    /// Only allow access to images visible to this account.
    pub account: Option<ImageId>,
    /// The image channel to use; `*` lists in all channels.
    pub channel: Option<String>,
    /// Whether to include administrative fields in the returned images.
    pub include_admin_fields: Option<bool>,
    /// Only list images owned by this account.
    pub owner: Option<ImageId>,
    /// List images with the given state.
    pub state: Option<ImageState>,
    /// List images with the given name; prefix with `~` for a substring
    /// match.
    pub name: Option<String>,
    /// List images with the given version; prefix with `~` for a substring
    /// match.
    pub version: Option<String>,
    /// List just public or just private images.
    pub public: Option<bool>,
    /// List images with the given operating system.
    pub os: Option<OperatingSystem>,
    /// List images of the given type; prefix with `!` to exclude that type.
    pub image_type: Option<String>,
    /// List images carrying each of these tags (a logical AND). Keys are
    /// given without the `tag.` prefix used on the wire, and each key should
    /// appear once.
    pub tag: Option<Vec<(String, String)>>,
    /// List images carrying each of these billing tags (a logical AND).
    pub billing_tag: Option<Vec<String>>,
    /// Maximum number of images to return.
    pub limit: Option<u32>,
}

impl Default for ImageFilter {
    /// The empty filter: no field set.
    fn default() -> (r: ImageFilter)
        ensures
            r.account is None,
            r.channel is None,
            r.include_admin_fields is None,
            r.owner is None,
            r.state is None,
            r.name is None,
            r.version is None,
            r.public is None,
            r.os is None,
            r.image_type is None,
            r.tag is None,
            r.billing_tag is None,
            r.limit is None,
    {
        ImageFilter {
            account: None,
            channel: None,
            include_admin_fields: None,
            owner: None,
            state: None,
            name: None,
            version: None,
            public: None,
            os: None,
            image_type: None,
            tag: None,
            billing_tag: None,
            limit: None,
        }
    }
}

/// The textual form of a boolean on the wire.
pub open spec fn bool_text(b: bool) -> Seq<char> {
    if b {
        "true"@
    } else {
        "false"@
    }
}

/// Pairs extended by one optional field: one pair appended when the field
/// is set, nothing otherwise.
pub open spec fn opt_push(
    ps: Seq<(Seq<char>, Seq<char>)>,
    key: Seq<char>,
    v: Option<Seq<char>>,
) -> Seq<(Seq<char>, Seq<char>)> {
    match v {
        Some(t) => ps.push((key, t)),
        None => ps,
    }
}

pub open spec fn str_opt(o: Option<String>) -> Option<Seq<char>> {
    match o {
        Some(s) => Some(s@),
        None => None,
    }
}

pub open spec fn id_opt(o: Option<ImageId>) -> Option<Seq<char>> {
    match o {
        Some(id) => Some(id@),
        None => None,
    }
}

pub open spec fn bool_opt(o: Option<bool>) -> Option<Seq<char>> {
    match o {
        Some(b) => Some(bool_text(b)),
        None => None,
    }
}

pub open spec fn state_opt(o: Option<ImageState>) -> Option<Seq<char>> {
    match o {
        Some(s) => Some(state_text(s)),
        None => None,
    }
}

pub open spec fn os_opt(o: Option<OperatingSystem>) -> Option<Seq<char>> {
    match o {
        Some(s) => Some(os_param_text(s)),
        None => None,
    }
}

pub open spec fn limit_opt(o: Option<u32>) -> Option<Seq<char>> {
    match o {
        Some(n) => Some(dec_text(n as nat)),
        None => None,
    }
}

/// Pairs extended by the tag mapping: one pair appended per entry, the key
/// prefixed `tag.`, in list order.
pub open spec fn tag_append(
    ps: Seq<(Seq<char>, Seq<char>)>,
    tags: Seq<(String, String)>,
) -> Seq<(Seq<char>, Seq<char>)>
    decreases tags.len(),
{
    if tags.len() == 0 {
        ps
    } else {
        tag_append(ps, tags.drop_last()).push(("tag."@ + tags.last().0@, tags.last().1@))
    }
}

/// Pairs extended by the billing tags: one `billing_tag` pair appended per
/// element, in list order.
pub open spec fn billing_append(
    ps: Seq<(Seq<char>, Seq<char>)>,
    bs: Seq<String>,
) -> Seq<(Seq<char>, Seq<char>)>
    decreases bs.len(),
{
    if bs.len() == 0 {
        ps
    } else {
        billing_append(ps, bs.drop_last()).push(("billing_tag"@, bs.last()@))
    }
}

/// The pairs contributed by the scalar fields, in emission order, each under
/// its service-side key.
pub open spec fn scalar_pairs(f: ImageFilter) -> Seq<(Seq<char>, Seq<char>)> {
    opt_push(
        opt_push(
            opt_push(
                opt_push(
                    opt_push(
                        opt_push(
                            opt_push(
                                opt_push(
                                    opt_push(
                                        opt_push(
                                            opt_push(
                                                Seq::empty(),
                                                "account"@,
                                                id_opt(f.account),
                                            ),
                                            "channel"@,
                                            str_opt(f.channel),
                                        ),
                                        "inclAdminFields"@,
                                        bool_opt(f.include_admin_fields),
                                    ),
                                    "owner"@,
                                    id_opt(f.owner),
                                ),
                                "state"@,
                                state_opt(f.state),
                            ),
                            "name"@,
                            str_opt(f.name),
                        ),
                        "version"@,
                        str_opt(f.version),
                    ),
                    "public"@,
                    bool_opt(f.public),
                ),
                "os"@,
                os_opt(f.os),
            ),
            "type"@,
            str_opt(f.image_type),
        ),
        "limit"@,
        limit_opt(f.limit),
    )
}

/// The tag entries of a filter, or none.
pub open spec fn tag_entries(f: ImageFilter) -> Seq<(String, String)> {
    match f.tag {
        Some(ts) => ts@,
        None => Seq::empty(),
    }
}

/// The billing-tag entries of a filter, or none.
pub open spec fn billing_entries(f: ImageFilter) -> Seq<String> {
    match f.billing_tag {
        Some(bs) => bs@,
        None => Seq::empty(),
    }
}

/// Every key/value pair a filter puts on the wire, in emission order: one
/// pair per set scalar field under its service-side key, then the tag pairs,
/// then the billing-tag pairs.
pub open spec fn filter_pairs(f: ImageFilter) -> Seq<(Seq<char>, Seq<char>)> {
    billing_append(tag_append(scalar_pairs(f), tag_entries(f)), billing_entries(f))
}

/// The `application/x-www-form-urlencoded` serialization of a character
/// sequence; the result depends on the characters alone.
pub uninterp spec fn form_encoded(s: Seq<char>) -> Seq<char>;

/// A character the form-urlencoded serializer passes through unchanged.
pub open spec fn form_unchanged_char(c: char) -> bool {
    ('0' <= c && c <= '9') || ('A' <= c && c <= 'Z') || ('a' <= c && c <= 'z') || c == '*' || c
        == '-' || c == '.' || c == '_'
}

/// Relies on `form_urlencoded::byte_serialize`: the
/// `application/x-www-form-urlencoded` byte serializer. Alphanumerics and
/// `*-._` pass through unchanged; a space becomes `+`; every other byte
/// becomes `%` and two uppercase hex digits.
#[verifier::external_body]
fn form_encode(s: &str) -> (r: String)
    ensures
        r@ == form_encoded(s@),
        (forall|i: int| 0 <= i < s@.len() ==> form_unchanged_char(#[trigger] s@[i])) ==> r@ == s@,
        forall|i: int|
            0 <= i < r@.len() ==> form_unchanged_char(#[trigger] r@[i]) || r@[i] == '+' || r@[i]
                == '%',
{
    url::form_urlencoded::byte_serialize(s.as_bytes()).collect()
}

/// One encoded pair: the encoded key, `=`, the encoded value.
pub open spec fn enc_pair(p: (Seq<char>, Seq<char>)) -> Seq<char> {
    form_encoded(p.0) + "="@ + form_encoded(p.1)
}

/// Encoded pairs joined with `&`; empty for no pairs.
pub open spec fn encode_pairs(ps: Seq<(Seq<char>, Seq<char>)>) -> Seq<char>
    decreases ps.len(),
{
    if ps.len() == 0 {
        Seq::empty()
    } else if ps.len() == 1 {
        enc_pair(ps[0])
    } else {
        encode_pairs(ps.drop_last()) + "&"@ + enc_pair(ps.last())
    }
}

/// The full query-string encoding of a filter.
pub open spec fn encoded_filter(f: ImageFilter) -> Seq<char> {
    encode_pairs(filter_pairs(f))
}

/// The views of built key/value pairs.
pub open spec fn pair_views(ps: Seq<(String, String)>) -> Seq<(Seq<char>, Seq<char>)> {
    ps.map(|i: int, p: (String, String)| (p.0@, p.1@))
}

proof fn lemma_pair_views_len(ps: Seq<(String, String)>)
    ensures
        pair_views(ps).len() == ps.len(),
{
}

proof fn lemma_pair_views_index(ps: Seq<(String, String)>, k: int)
    requires
        0 <= k < ps.len(),
    ensures
        pair_views(ps)[k] == (ps[k].0@, ps[k].1@),
{
}

impl ImageFilter {
    /// The percent-encoded query string describing this filter: one
    /// `key=value` pair per set field, pairs joined with `&`, nothing for an
    /// empty filter.
    pub fn to_string(&self) -> (r: String)
        ensures
            r@ == encoded_filter(*self),
    {
        let pairs = self.to_pairs();
        let mut out = String::new();
        let mut i: usize = 0;
        while i < pairs.len()
            invariant
                i <= pairs.len(),
                pair_views(pairs@) == filter_pairs(*self),
                out@ == encode_pairs(pair_views(pairs@).take(i as int)),
            decreases pairs.len() - i,
        {
            if i > 0 {
                out.append("&");
            }
            let ek = form_encode(pairs[i].0.as_str());
            out.append(ek.as_str());
            out.append("=");
            let ev = form_encode(pairs[i].1.as_str());
            out.append(ev.as_str());
            proof {
                let vs = pair_views(pairs@);
                lemma_pair_views_len(pairs@);
                lemma_pair_views_index(pairs@, i as int);
                assert(vs.take(i + 1).drop_last() =~= vs.take(i as int));
                assert(vs.take(i + 1).last() == vs[i as int]);
            }
            i += 1;
        }
        proof {
            lemma_pair_views_len(pairs@);
            assert(pair_views(pairs@).take(pairs@.len() as int) =~= pair_views(pairs@));
        }
        out
    }

    /// The key/value pairs this filter puts on the wire, before percent
    /// encoding, in emission order.
    #[verifier::rlimit(100)]
    pub fn to_pairs(&self) -> (pairs: Vec<(String, String)>)
        ensures
            pair_views(pairs@) == filter_pairs(*self),
    {
        let mut pairs: Vec<(String, String)> = Vec::new();
        proof {
            assert(pair_views(pairs@) =~~= Seq::empty());
        }
        if let Some(id) = &self.account {
            push_kv(&mut pairs, "account", id.to_text());
        }
        if let Some(c) = &self.channel {
            push_kv(&mut pairs, "channel", c.clone());
        }
        if let Some(b) = &self.include_admin_fields {
            push_kv(&mut pairs, "inclAdminFields", bool_string(*b));
        }
        if let Some(id) = &self.owner {
            push_kv(&mut pairs, "owner", id.to_text());
        }
        if let Some(s) = &self.state {
            push_kv(&mut pairs, "state", String::from_str(s.as_param()));
        }
        if let Some(n) = &self.name {
            push_kv(&mut pairs, "name", n.clone());
        }
        if let Some(v) = &self.version {
            push_kv(&mut pairs, "version", v.clone());
        }
        if let Some(b) = &self.public {
            push_kv(&mut pairs, "public", bool_string(*b));
        }
        if let Some(o) = &self.os {
            push_kv(&mut pairs, "os", String::from_str(o.as_param()));
        }
        if let Some(t) = &self.image_type {
            push_kv(&mut pairs, "type", t.clone());
        }
        if let Some(n) = &self.limit {
            push_kv(&mut pairs, "limit", u32_text(*n));
        }
        if let Some(ts) = &self.tag {
            push_tag_pairs(&mut pairs, ts);
        }
        if let Some(bs) = &self.billing_tag {
            push_billing_pairs(&mut pairs, bs);
        }
        pairs
    }
}

/// Appends one pair under the given key.
fn push_kv(pairs: &mut Vec<(String, String)>, key: &str, value: String)
    ensures
        pair_views(final(pairs)@) == pair_views(old(pairs)@).push((key@, value@)),
{
    let ghost v = value@;
    pairs.push((String::from_str(key), value));
    proof {
        assert(pair_views(pairs@) =~~= pair_views(old(pairs)@).push((key@, v)));
    }
}

/// Appends one `tag.`-prefixed pair per tag entry, in list order.
fn push_tag_pairs(pairs: &mut Vec<(String, String)>, ts: &Vec<(String, String)>)
    ensures
        pair_views(final(pairs)@) == tag_append(pair_views(old(pairs)@), ts@),
{
    let ghost orig = pairs@;
    let mut j: usize = 0;
    while j < ts.len()
        invariant
            j <= ts.len(),
            pair_views(pairs@) == tag_append(pair_views(orig), ts@.take(j as int)),
        decreases ts.len() - j,
    {
        let mut key = String::from_str("tag.");
        key.append(ts[j].0.as_str());
        let ghost kv = key@;
        pairs.push((key, ts[j].1.clone()));
        proof {
            assert(ts@.take(j + 1).drop_last() =~= ts@.take(j as int));
            assert(ts@.take(j + 1).last() == ts@[j as int]);
            assert(pair_views(pairs@) =~~= tag_append(pair_views(orig), ts@.take(j as int)).push(
                (kv, ts@[j as int].1@),
            ));
        }
        j += 1;
    }
    proof {
        assert(ts@.take(ts@.len() as int) =~= ts@);
    }
}

/// Appends one `billing_tag` pair per element, in list order.
fn push_billing_pairs(pairs: &mut Vec<(String, String)>, bs: &Vec<String>)
    ensures
        pair_views(final(pairs)@) == billing_append(pair_views(old(pairs)@), bs@),
{
    let ghost orig = pairs@;
    let mut j: usize = 0;
    while j < bs.len()
        invariant
            j <= bs.len(),
            pair_views(pairs@) == billing_append(pair_views(orig), bs@.take(j as int)),
        decreases bs.len() - j,
    {
        pairs.push((String::from_str("billing_tag"), bs[j].clone()));
        proof {
            assert(bs@.take(j + 1).drop_last() =~= bs@.take(j as int));
            assert(bs@.take(j + 1).last() == bs@[j as int]);
            assert(pair_views(pairs@) =~~= billing_append(pair_views(orig), bs@.take(j as int)).push(
                ("billing_tag"@, bs@[j as int]@),
            ));
        }
        j += 1;
    }
    proof {
        assert(bs@.take(bs@.len() as int) =~= bs@);
    }
}

/// The textual form of a boolean.
pub fn bool_string(b: bool) -> (r: String)
    ensures
        r@ == bool_text(b),
{
    if b {
        String::from_str("true")
    } else {
        String::from_str("false")
    }
}

} // verus!




verus! {

/// A filter with only the account changed.
pub open spec fn with_account(f: ImageFilter, x: Option<ImageId>) -> ImageFilter {
    ImageFilter { account: x, ..f }
}

pub open spec fn with_channel(f: ImageFilter, x: Option<String>) -> ImageFilter {
    ImageFilter { channel: x, ..f }
}

pub open spec fn with_include_admin_fields(f: ImageFilter, x: Option<bool>) -> ImageFilter {
    ImageFilter { include_admin_fields: x, ..f }
}

pub open spec fn with_owner(f: ImageFilter, x: Option<ImageId>) -> ImageFilter {
    ImageFilter { owner: x, ..f }
}

pub open spec fn with_name(f: ImageFilter, x: Option<String>) -> ImageFilter {
    ImageFilter { name: x, ..f }
}

pub open spec fn with_version(f: ImageFilter, x: Option<String>) -> ImageFilter {
    ImageFilter { version: x, ..f }
}

pub open spec fn with_public(f: ImageFilter, x: Option<bool>) -> ImageFilter {
    ImageFilter { public: x, ..f }
}

pub open spec fn with_os(f: ImageFilter, x: Option<OperatingSystem>) -> ImageFilter {
    ImageFilter { os: x, ..f }
}

pub open spec fn with_image_type(f: ImageFilter, x: Option<String>) -> ImageFilter {
    ImageFilter { image_type: x, ..f }
}

pub open spec fn with_billing_tag(f: ImageFilter, x: Option<Vec<String>>) -> ImageFilter {
    ImageFilter { billing_tag: x, ..f }
}

pub open spec fn with_limit(f: ImageFilter, x: Option<u32>) -> ImageFilter {
    ImageFilter { limit: x, ..f }
}

/// The query keys that a `key=value` token may set.
pub open spec fn recognized_key(key: Seq<char>) -> bool {
    ||| key == "account"@
    ||| key == "channel"@
    ||| key == "inclAdminFields"@
    ||| key == "owner"@
    ||| key == "name"@
    ||| key == "version"@
    ||| key == "public"@
    ||| key == "os"@
    ||| key == "type"@
    ||| key == "billing_tag"@
    ||| key == "limit"@
}

impl ImageFilter {
    /// Applies one `key=value` token to the filter. Identifier, boolean,
    /// operating-system and integer values are validated; a bad value or an
    /// unrecognized key is rejected before any network activity and leaves
    /// the filter unchanged. The `tag` and `marker` keys are recognized by
    /// the service but not taken here.
    #[verifier::rlimit(100)]
    pub fn set_param(&mut self, key: &str, value: String) -> (r: Result<(), ImgapiError>)
        requires
            key@ != "tag"@,
            key@ != "marker"@,
        ensures
            r matches Err(e) ==> e is ValidationError && *final(self) == *old(self),
            !recognized_key(key@) ==> r is Err,
            key@ == "account"@ ==> (r is Ok) == uuid_grammar(value@) && (r is Ok
                ==> *final(self) == with_account(*old(self), final(self).account) && (final(self).account matches Some(id) && id@ == uuid_normal(value@))),
            key@ == "channel"@ ==> r is Ok && *final(self) == with_channel(
                *old(self),
                Some(value),
            ),
            key@ == "inclAdminFields"@ ==> (r is Ok) == (value@ == "true"@ || value@ == "false"@)
                && (r is Ok ==> *final(self) == with_include_admin_fields(
                *old(self),
                Some(value@ == "true"@),
            )),
            key@ == "owner"@ ==> (r is Ok) == uuid_grammar(value@) && (r is Ok ==> *final(self)
                == with_owner(*old(self), final(self).owner) && (final(self).owner matches Some(id)
                && id@ == uuid_normal(value@))),
            key@ == "name"@ ==> r is Ok && *final(self) == with_name(*old(self), Some(value)),
            key@ == "version"@ ==> r is Ok && *final(self) == with_version(
                *old(self),
                Some(value),
            ),
            key@ == "public"@ ==> (r is Ok) == (value@ == "true"@ || value@ == "false"@) && (r
                is Ok ==> *final(self) == with_public(*old(self), Some(value@ == "true"@))),
            key@ == "os"@ ==> (r is Ok) == (os_of_text(lower_of(value@)) is Some) && (r is Ok
                ==> *final(self) == with_os(*old(self), os_of_text(lower_of(value@)))),
            key@ == "type"@ ==> r is Ok && *final(self) == with_image_type(
                *old(self),
                Some(value),
            ),
            key@ == "billing_tag"@ ==> r is Ok && (final(self).billing_tag matches Some(bs)
                && bs@ == (match old(self).billing_tag {
                Some(obs) => obs@.push(value),
                None => seq![value],
            })) && *final(self) == with_billing_tag(*old(self), final(self).billing_tag),
            key@ == "limit"@ ==> (r is Ok) == (is_canon_int(value@) && digits_val(value@)
                <= u32::MAX) && (r is Ok ==> (final(self).limit matches Some(n) && digits_val(
                value@,
            ) == n) && *final(self) == with_limit(*old(self), final(self).limit)),
    {
        proof {
            reveal_strlit("account");
            reveal_strlit("channel");
            reveal_strlit("inclAdminFields");
            reveal_strlit("owner");
            reveal_strlit("name");
            reveal_strlit("version");
            reveal_strlit("public");
            reveal_strlit("os");
            reveal_strlit("type");
            reveal_strlit("billing_tag");
            reveal_strlit("limit");
            reveal_strlit("true");
            reveal_strlit("false");
            assert("account"@.len() == 7);
            assert("channel"@.len() == 7);
            assert("inclAdminFields"@.len() == 15);
            assert("owner"@.len() == 5);
            assert("name"@.len() == 4);
            assert("version"@.len() == 7);
            assert("public"@.len() == 6);
            assert("os"@.len() == 2);
            assert("type"@.len() == 4);
            assert("billing_tag"@.len() == 11);
            assert("limit"@.len() == 5);
            assert("true"@.len() == 4);
            assert("false"@.len() == 5);
            assert("account"@[0] == 'a');
            assert("channel"@[0] == 'c');
            assert("version"@[0] == 'v');
            assert("owner"@[0] == 'o');
            assert("limit"@[0] == 'l');
            assert("name"@[0] == 'n');
            assert("type"@[0] == 't');
            assert("true"@[0] == 't');
            assert("type"@[1] == 'y');
            assert("true"@[1] == 'r');
            assert("owner"@[1] == 'w');
            assert("limit"@[1] == 'i');
            assert("false"@[0] == 'f');
        }
        if str_eq(key, "account") {
            match ImageId::parse(value.as_str()) {
                Ok(id) => {
                    self.account = Some(id);
                    Ok(())
                },
                Err(e) => Err(e),
            }
        } else if str_eq(key, "channel") {
            self.channel = Some(value);
            Ok(())
        } else if str_eq(key, "inclAdminFields") {
            match parse_bool(value.as_str()) {
                Some(b) => {
                    self.include_admin_fields = Some(b);
                    Ok(())
                },
                None => Err(validation_err("inclAdminFields must be either true or false")),
            }
        } else if str_eq(key, "owner") {
            match ImageId::parse(value.as_str()) {
                Ok(id) => {
                    self.owner = Some(id);
                    Ok(())
                },
                Err(e) => Err(e),
            }
        } else if str_eq(key, "name") {
            self.name = Some(value);
            Ok(())
        } else if str_eq(key, "version") {
            self.version = Some(value);
            Ok(())
        } else if str_eq(key, "public") {
            match parse_bool(value.as_str()) {
                Some(b) => {
                    self.public = Some(b);
                    Ok(())
                },
                None => Err(validation_err("public must be either true or false")),
            }
        } else if str_eq(key, "os") {
            match OperatingSystem::from_str(value.as_str()) {
                Ok(o) => {
                    self.os = Some(o);
                    Ok(())
                },
                Err(_) => Err(
                    validation_err("os must be one of: smartos, linux, windows, bsd, illumos, other"),
                ),
            }
        } else if str_eq(key, "type") {
            self.image_type = Some(value);
            Ok(())
        } else if str_eq(key, "billing_tag") {
            match &mut self.billing_tag {
                Some(tags) => {
                    tags.push(value);
                },
                None => {
                    let mut tags: Vec<String> = Vec::new();
                    tags.push(value);
                    self.billing_tag = Some(tags);
                },
            }
            Ok(())
        } else if str_eq(key, "limit") {
            match parse_u32(value.as_str()) {
                Some(n) => {
                    self.limit = Some(n);
                    Ok(())
                },
                None => Err(validation_err("limit must be an unsigned integer")),
            }
        } else {
            Err(validation_err("unexpected query filter key"))
        }
    }
}

/// Reads a boolean exactly as its two textual forms.
pub fn parse_bool(s: &str) -> (r: Option<bool>)
    ensures
        r == (if s@ == "true"@ {
            Some(true)
        } else if s@ == "false"@ {
            Some(false)
        } else {
            None::<bool>
        }),
{
    if str_eq(s, "true") {
        Some(true)
    } else if str_eq(s, "false") {
        Some(false)
    } else {
        None
    }
}

/// A validation failure with a short description.
fn validation_err(what: &str) -> (r: ImgapiError)
    ensures
        r is ValidationError,
{
    ImgapiError::ValidationError(String::from_str(what))
}

} // verus!
