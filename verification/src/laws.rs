use vstd::prelude::*;
use crate::filter::{
    ImageFilter, opt_push, tag_append, billing_append, scalar_pairs, filter_pairs, tag_entries,
    billing_entries, encoded_filter,
};

verus! {

/// The values under one key, in emission order: the multi-map reading of a
/// pair list.
pub open spec fn values_for_key(ps: Seq<(Seq<char>, Seq<char>)>, key: Seq<char>) -> Seq<Seq<char>>
    decreases ps.len(),
{
    if ps.len() == 0 {
        Seq::empty()
    } else if ps.last().0 == key {
        values_for_key(ps.drop_last(), key).push(ps.last().1)
    } else {
        values_for_key(ps.drop_last(), key)
    }
}

/// The views of a list of strings, in order.
pub open spec fn str_views(bs: Seq<String>) -> Seq<Seq<char>>
    decreases bs.len(),
{
    if bs.len() == 0 {
        Seq::empty()
    } else {
        str_views(bs.drop_last()).push(bs.last()@)
    }
}

proof fn lemma_values_push(ps: Seq<(Seq<char>, Seq<char>)>, key: Seq<char>, p: (Seq<char>, Seq<char>))
    ensures
        values_for_key(ps.push(p), key) == (if p.0 == key {
            values_for_key(ps, key).push(p.1)
        } else {
            values_for_key(ps, key)
        }),
{
    assert(ps.push(p).drop_last() =~= ps);
    assert(ps.push(p).last() == p);
}

/// How one optional field changes the values under a key.
proof fn lemma_values_opt_push(
    ps: Seq<(Seq<char>, Seq<char>)>,
    k: Seq<char>,
    v: Option<Seq<char>>,
    key: Seq<char>,
)
    ensures
        values_for_key(opt_push(ps, k, v), key) == (match v {
            Some(t) => if k == key {
                values_for_key(ps, key).push(t)
            } else {
                values_for_key(ps, key)
            },
            None => values_for_key(ps, key),
        }),
{
    match v {
        Some(t) => lemma_values_push(ps, key, (k, t)),
        None => (),
    }
}

/// Appending tag pairs leaves every key that is not one of theirs alone.
proof fn lemma_values_tag_append_other(
    ps: Seq<(Seq<char>, Seq<char>)>,
    tags: Seq<(String, String)>,
    key: Seq<char>,
)
    requires
        forall|i: int| 0 <= i < tags.len() ==> "tag."@ + (#[trigger] tags[i]).0@ != key,
    ensures
        values_for_key(tag_append(ps, tags), key) == values_for_key(ps, key),
    decreases tags.len(),
{
    if tags.len() > 0 {
        lemma_values_tag_append_other(ps, tags.drop_last(), key);
        lemma_values_push(
            tag_append(ps, tags.drop_last()),
            key,
            ("tag."@ + tags.last().0@, tags.last().1@),
        );
    }
}

/// Appending billing pairs leaves every other key alone.
proof fn lemma_values_billing_append_other(
    ps: Seq<(Seq<char>, Seq<char>)>,
    bs: Seq<String>,
    key: Seq<char>,
)
    requires
        key != "billing_tag"@,
    ensures
        values_for_key(billing_append(ps, bs), key) == values_for_key(ps, key),
    decreases bs.len(),
{
    if bs.len() > 0 {
        lemma_values_billing_append_other(ps, bs.drop_last(), key);
        lemma_values_push(billing_append(ps, bs.drop_last()), key, ("billing_tag"@, bs.last()@));
    }
}

/// Appending billing pairs appends exactly their values under `billing_tag`.
proof fn lemma_values_billing_append(ps: Seq<(Seq<char>, Seq<char>)>, bs: Seq<String>)
    ensures
        values_for_key(billing_append(ps, bs), "billing_tag"@) == values_for_key(
            ps,
            "billing_tag"@,
        ) + str_views(bs),
    decreases bs.len(),
{
    if bs.len() == 0 {
        assert(values_for_key(ps, "billing_tag"@) + str_views(bs) =~= values_for_key(
            ps,
            "billing_tag"@,
        ));
    } else {
        lemma_values_billing_append(ps, bs.drop_last());
        lemma_values_push(billing_append(ps, bs.drop_last()), "billing_tag"@, ("billing_tag"@, bs.last()@));
        assert(values_for_key(ps, "billing_tag"@) + str_views(bs) =~= (values_for_key(
            ps,
            "billing_tag"@,
        ) + str_views(bs.drop_last())).push(bs.last()@));
    }
}

/// A `tag.`-prefixed key starts with `t`; the scalar keys it could collide
/// with do not, except `type` and `traits`, which differ at the next letter.
proof fn lemma_tag_key_distinct(x: Seq<char>, key: Seq<char>)
    requires
        key == "account"@ || key == "channel"@ || key == "inclAdminFields"@ || key == "owner"@
            || key == "state"@ || key == "name"@ || key == "version"@ || key == "public"@ || key
            == "os"@ || key == "type"@ || key == "limit"@ || key == "billing_tag"@,
    ensures
        "tag."@ + x != key,
{
    reveal_strlit("tag.");
    reveal_strlit("account");
    reveal_strlit("channel");
    reveal_strlit("inclAdminFields");
    reveal_strlit("owner");
    reveal_strlit("state");
    reveal_strlit("name");
    reveal_strlit("version");
    reveal_strlit("public");
    reveal_strlit("os");
    reveal_strlit("type");
    reveal_strlit("limit");
    reveal_strlit("billing_tag");
    assert(("tag."@ + x)[0] == 't');
    assert(("tag."@ + x)[1] == 'a');
    assert(("tag."@ + x)[2] == 'g');
    if key == "type"@ {
        assert(key[1] == 'y');
    } else if key == "tag."@ {
    } else {
        assert(key[0] != 't' || key[2] != 'g' || key[1] != 'a');
    }
}

/// How the scalar pairs read as a multi-map: each set scalar field appears
/// under its key with its one value; each unset one does not appear.
proof fn lemma_values_scalar(f: ImageFilter, key: Seq<char>)
    ensures
        key == "account"@ ==> values_for_key(scalar_pairs(f), key) == (match f.account {
            Some(id) => seq![id@],
            None => Seq::<Seq<char>>::empty(),
        }),
        key == "channel"@ ==> values_for_key(scalar_pairs(f), key) == (match f.channel {
            Some(c) => seq![c@],
            None => Seq::<Seq<char>>::empty(),
        }),
        key == "inclAdminFields"@ ==> values_for_key(scalar_pairs(f), key) == (match f
            .include_admin_fields {
            Some(b) => seq![crate::filter::bool_text(b)],
            None => Seq::<Seq<char>>::empty(),
        }),
        key == "owner"@ ==> values_for_key(scalar_pairs(f), key) == (match f.owner {
            Some(id) => seq![id@],
            None => Seq::<Seq<char>>::empty(),
        }),
        key == "state"@ ==> values_for_key(scalar_pairs(f), key) == (match f.state {
            Some(s) => seq![crate::enums::state_text(s)],
            None => Seq::<Seq<char>>::empty(),
        }),
        key == "name"@ ==> values_for_key(scalar_pairs(f), key) == (match f.name {
            Some(n) => seq![n@],
            None => Seq::<Seq<char>>::empty(),
        }),
        key == "version"@ ==> values_for_key(scalar_pairs(f), key) == (match f.version {
            Some(v) => seq![v@],
            None => Seq::<Seq<char>>::empty(),
        }),
        key == "public"@ ==> values_for_key(scalar_pairs(f), key) == (match f.public {
            Some(b) => seq![crate::filter::bool_text(b)],
            None => Seq::<Seq<char>>::empty(),
        }),
        key == "os"@ ==> values_for_key(scalar_pairs(f), key) == (match f.os {
            Some(o) => seq![crate::enums::os_param_text(o)],
            None => Seq::<Seq<char>>::empty(),
        }),
        key == "type"@ ==> values_for_key(scalar_pairs(f), key) == (match f.image_type {
            Some(t) => seq![t@],
            None => Seq::<Seq<char>>::empty(),
        }),
        key == "limit"@ ==> values_for_key(scalar_pairs(f), key) == (match f.limit {
            Some(n) => seq![crate::numbers::dec_text(n as nat)],
            None => Seq::<Seq<char>>::empty(),
        }),
        key == "billing_tag"@ ==> values_for_key(scalar_pairs(f), key) == Seq::<Seq<char>>::empty(),
{
    reveal_strlit("account");
    reveal_strlit("channel");
    reveal_strlit("inclAdminFields");
    reveal_strlit("owner");
    reveal_strlit("state");
    reveal_strlit("name");
    reveal_strlit("version");
    reveal_strlit("public");
    reveal_strlit("os");
    reveal_strlit("type");
    reveal_strlit("limit");
    reveal_strlit("billing_tag");
    assert("account"@.len() == 7);
    assert("channel"@.len() == 7);
    assert("inclAdminFields"@.len() == 15);
    assert("owner"@.len() == 5);
    assert("state"@.len() == 5);
    assert("name"@.len() == 4);
    assert("version"@.len() == 7);
    assert("public"@.len() == 6);
    assert("os"@.len() == 2);
    assert("type"@.len() == 4);
    assert("limit"@.len() == 5);
    assert("billing_tag"@.len() == 11);
    assert("account"@[0] == 'a');
    assert("channel"@[0] == 'c');
    assert("version"@[0] == 'v');
    assert("owner"@[0] == 'o');
    assert("state"@[0] == 's');
    assert("limit"@[0] == 'l');
    assert("name"@[0] == 'n');
    assert("type"@[0] == 't');
    let s0: Seq<(Seq<char>, Seq<char>)> = Seq::empty();
    let s1 = opt_push(s0, "account"@, crate::filter::id_opt(f.account));
    let s2 = opt_push(s1, "channel"@, crate::filter::str_opt(f.channel));
    let s3 = opt_push(s2, "inclAdminFields"@, crate::filter::bool_opt(f.include_admin_fields));
    let s4 = opt_push(s3, "owner"@, crate::filter::id_opt(f.owner));
    let s5 = opt_push(s4, "state"@, crate::filter::state_opt(f.state));
    let s6 = opt_push(s5, "name"@, crate::filter::str_opt(f.name));
    let s7 = opt_push(s6, "version"@, crate::filter::str_opt(f.version));
    let s8 = opt_push(s7, "public"@, crate::filter::bool_opt(f.public));
    let s9 = opt_push(s8, "os"@, crate::filter::os_opt(f.os));
    let s10 = opt_push(s9, "type"@, crate::filter::str_opt(f.image_type));
    let s11 = opt_push(s10, "limit"@, crate::filter::limit_opt(f.limit));
    assert(scalar_pairs(f) == s11);
    lemma_values_opt_push(s0, "account"@, crate::filter::id_opt(f.account), key);
    lemma_values_opt_push(s1, "channel"@, crate::filter::str_opt(f.channel), key);
    lemma_values_opt_push(s2, "inclAdminFields"@, crate::filter::bool_opt(f.include_admin_fields), key);
    lemma_values_opt_push(s3, "owner"@, crate::filter::id_opt(f.owner), key);
    lemma_values_opt_push(s4, "state"@, crate::filter::state_opt(f.state), key);
    lemma_values_opt_push(s5, "name"@, crate::filter::str_opt(f.name), key);
    lemma_values_opt_push(s6, "version"@, crate::filter::str_opt(f.version), key);
    lemma_values_opt_push(s7, "public"@, crate::filter::bool_opt(f.public), key);
    lemma_values_opt_push(s8, "os"@, crate::filter::os_opt(f.os), key);
    lemma_values_opt_push(s9, "type"@, crate::filter::str_opt(f.image_type), key);
    lemma_values_opt_push(s10, "limit"@, crate::filter::limit_opt(f.limit), key);
}

/// An empty filter encodes to the empty query string.
///
/// Law: for every filter with no field set, the encoded query string is
/// empty.
pub proof fn lemma_empty_filter_encodes_empty(f: ImageFilter)
    requires
        f.account is None,
        f.channel is None,
        f.include_admin_fields is None,
        f.owner is None,
        f.state is None,
        f.name is None,
        f.version is None,
        f.public is None,
        f.os is None,
        f.image_type is None,
        f.tag is None,
        f.billing_tag is None,
        f.limit is None,
    ensures
        encoded_filter(f) == Seq::<char>::empty(),
{
    assert(filter_pairs(f) =~= Seq::empty());
}

/// Reading the encoded pairs back as a multi-map reproduces every set scalar
/// field under its documented key with its documented value, omits every
/// unset one, and lists the billing tags in order under `billing_tag`.
///
/// Law: for every filter, decoding the encoding reproduces the set fields and
/// omits the unset ones.
pub proof fn lemma_filter_pairs_reproduce_fields(f: ImageFilter, key: Seq<char>)
    ensures
        key == "account"@ ==> values_for_key(filter_pairs(f), key) == (match f.account {
            Some(id) => seq![id@],
            None => Seq::<Seq<char>>::empty(),
        }),
        key == "channel"@ ==> values_for_key(filter_pairs(f), key) == (match f.channel {
            Some(c) => seq![c@],
            None => Seq::<Seq<char>>::empty(),
        }),
        key == "inclAdminFields"@ ==> values_for_key(filter_pairs(f), key) == (match f
            .include_admin_fields {
            Some(b) => seq![crate::filter::bool_text(b)],
            None => Seq::<Seq<char>>::empty(),
        }),
        key == "owner"@ ==> values_for_key(filter_pairs(f), key) == (match f.owner {
            Some(id) => seq![id@],
            None => Seq::<Seq<char>>::empty(),
        }),
        key == "state"@ ==> values_for_key(filter_pairs(f), key) == (match f.state {
            Some(s) => seq![crate::enums::state_text(s)],
            None => Seq::<Seq<char>>::empty(),
        }),
        key == "name"@ ==> values_for_key(filter_pairs(f), key) == (match f.name {
            Some(n) => seq![n@],
            None => Seq::<Seq<char>>::empty(),
        }),
        key == "version"@ ==> values_for_key(filter_pairs(f), key) == (match f.version {
            Some(v) => seq![v@],
            None => Seq::<Seq<char>>::empty(),
        }),
        key == "public"@ ==> values_for_key(filter_pairs(f), key) == (match f.public {
            Some(b) => seq![crate::filter::bool_text(b)],
            None => Seq::<Seq<char>>::empty(),
        }),
        key == "os"@ ==> values_for_key(filter_pairs(f), key) == (match f.os {
            Some(o) => seq![crate::enums::os_param_text(o)],
            None => Seq::<Seq<char>>::empty(),
        }),
        key == "type"@ ==> values_for_key(filter_pairs(f), key) == (match f.image_type {
            Some(t) => seq![t@],
            None => Seq::<Seq<char>>::empty(),
        }),
        key == "limit"@ ==> values_for_key(filter_pairs(f), key) == (match f.limit {
            Some(n) => seq![crate::numbers::dec_text(n as nat)],
            None => Seq::<Seq<char>>::empty(),
        }),
        key == "billing_tag"@ ==> values_for_key(filter_pairs(f), key) == (match f.billing_tag {
            Some(bs) => str_views(bs@),
            None => Seq::<Seq<char>>::empty(),
        }),
{
    reveal_strlit("account");
    reveal_strlit("channel");
    reveal_strlit("inclAdminFields");
    reveal_strlit("owner");
    reveal_strlit("state");
    reveal_strlit("name");
    reveal_strlit("version");
    reveal_strlit("public");
    reveal_strlit("os");
    reveal_strlit("type");
    reveal_strlit("limit");
    reveal_strlit("billing_tag");
    assert("account"@.len() == 7);
    assert("channel"@.len() == 7);
    assert("inclAdminFields"@.len() == 15);
    assert("owner"@.len() == 5);
    assert("state"@.len() == 5);
    assert("name"@.len() == 4);
    assert("version"@.len() == 7);
    assert("public"@.len() == 6);
    assert("os"@.len() == 2);
    assert("type"@.len() == 4);
    assert("limit"@.len() == 5);
    assert("billing_tag"@.len() == 11);
    if key == "account"@ || key == "channel"@ || key == "inclAdminFields"@ || key == "owner"@
        || key == "state"@ || key == "name"@ || key == "version"@ || key == "public"@ || key
        == "os"@ || key == "type"@ || key == "limit"@ || key == "billing_tag"@ {
        lemma_values_scalar(f, key);
        assert forall|i: int| 0 <= i < tag_entries(f).len() implies "tag."@ + (#[trigger]
        tag_entries(f)[i]).0@ != key by {
            lemma_tag_key_distinct(tag_entries(f)[i].0@, key);
        }
        lemma_values_tag_append_other(scalar_pairs(f), tag_entries(f), key);
        if key == "billing_tag"@ {
            lemma_values_billing_append(tag_append(scalar_pairs(f), tag_entries(f)), billing_entries(f));
            if f.billing_tag is None {
                assert(values_for_key(filter_pairs(f), key) =~= Seq::<Seq<char>>::empty());
            } else {
                assert(values_for_key(filter_pairs(f), key) =~= str_views(billing_entries(f)));
            }
        } else {
            reveal_strlit("billing_tag");
            lemma_values_billing_append_other(
                tag_append(scalar_pairs(f), tag_entries(f)),
                billing_entries(f),
                key,
            );
        }
    }
}

/// One tag entry with a key of its own appears exactly once, under `tag.` and
/// its key, with its value.
///
/// Law: the tag mapping expands into one `tag.`-prefixed pair per entry.
pub proof fn lemma_filter_pairs_reproduce_tag(f: ImageFilter, i: int)
    requires
        f.tag matches Some(ts) && 0 <= i < ts@.len(),
        forall|j: int|
            0 <= j < tag_entries(f).len() && j != i ==> (#[trigger] tag_entries(f)[j]).0@
                != tag_entries(f)[i].0@,
    ensures
        values_for_key(filter_pairs(f), "tag."@ + tag_entries(f)[i].0@) == seq![
            tag_entries(f)[i].1@,
        ],
{
    let key = "tag."@ + tag_entries(f)[i].0@;
    reveal_strlit("tag.");
    assert("tag."@.len() == 4);
    assert(key.len() >= 4);
    assert(key[0] == 't' && key[1] == 'a' && key[2] == 'g' && key[3] == '.');
    lemma_scalar_free_of_tag_keys(f, key);
    lemma_values_tag_one(scalar_pairs(f), tag_entries(f), i);
    reveal_strlit("billing_tag");
    reveal_strlit("tag.");
    assert(key[0] == 't');
    assert("billing_tag"@[0] == 'b');
    lemma_values_billing_append_other(
        tag_append(scalar_pairs(f), tag_entries(f)),
        billing_entries(f),
        key,
    );
}

/// No scalar pair carries a `tag.`-prefixed key.
proof fn lemma_scalar_free_of_tag_keys(f: ImageFilter, key: Seq<char>)
    requires
        key.len() >= 4,
        key[0] == 't',
        key[1] == 'a',
        key[2] == 'g',
        key[3] == '.',
    ensures
        values_for_key(scalar_pairs(f), key) == Seq::<Seq<char>>::empty(),
{
    reveal_strlit("tag.");
    reveal_strlit("account");
    reveal_strlit("channel");
    reveal_strlit("inclAdminFields");
    reveal_strlit("owner");
    reveal_strlit("state");
    reveal_strlit("name");
    reveal_strlit("version");
    reveal_strlit("public");
    reveal_strlit("os");
    reveal_strlit("type");
    reveal_strlit("limit");
    assert("type"@[1] == 'y');
    assert("account"@[0] == 'a');
    assert("channel"@[0] == 'c');
    assert("inclAdminFields"@[0] == 'i');
    assert("owner"@[0] == 'o');
    assert("state"@[0] == 's');
    assert("name"@[0] == 'n');
    assert("version"@[0] == 'v');
    assert("public"@[0] == 'p');
    assert("os"@[0] == 'o');
    assert("limit"@[0] == 'l');
    assert("account"@.len() == 7);
    assert("channel"@.len() == 7);
    assert("inclAdminFields"@.len() == 15);
    assert("owner"@.len() == 5);
    assert("state"@.len() == 5);
    assert("name"@.len() == 4);
    assert("version"@.len() == 7);
    assert("public"@.len() == 6);
    assert("os"@.len() == 2);
    assert("type"@.len() == 4);
    assert("limit"@.len() == 5);
    let s0: Seq<(Seq<char>, Seq<char>)> = Seq::empty();
    let s1 = opt_push(s0, "account"@, crate::filter::id_opt(f.account));
    let s2 = opt_push(s1, "channel"@, crate::filter::str_opt(f.channel));
    let s3 = opt_push(s2, "inclAdminFields"@, crate::filter::bool_opt(f.include_admin_fields));
    let s4 = opt_push(s3, "owner"@, crate::filter::id_opt(f.owner));
    let s5 = opt_push(s4, "state"@, crate::filter::state_opt(f.state));
    let s6 = opt_push(s5, "name"@, crate::filter::str_opt(f.name));
    let s7 = opt_push(s6, "version"@, crate::filter::str_opt(f.version));
    let s8 = opt_push(s7, "public"@, crate::filter::bool_opt(f.public));
    let s9 = opt_push(s8, "os"@, crate::filter::os_opt(f.os));
    let s10 = opt_push(s9, "type"@, crate::filter::str_opt(f.image_type));
    let s11 = opt_push(s10, "limit"@, crate::filter::limit_opt(f.limit));
    assert(scalar_pairs(f) == s11);
    lemma_values_opt_push(s0, "account"@, crate::filter::id_opt(f.account), key);
    lemma_values_opt_push(s1, "channel"@, crate::filter::str_opt(f.channel), key);
    lemma_values_opt_push(s2, "inclAdminFields"@, crate::filter::bool_opt(f.include_admin_fields), key);
    lemma_values_opt_push(s3, "owner"@, crate::filter::id_opt(f.owner), key);
    lemma_values_opt_push(s4, "state"@, crate::filter::state_opt(f.state), key);
    lemma_values_opt_push(s5, "name"@, crate::filter::str_opt(f.name), key);
    lemma_values_opt_push(s6, "version"@, crate::filter::str_opt(f.version), key);
    lemma_values_opt_push(s7, "public"@, crate::filter::bool_opt(f.public), key);
    lemma_values_opt_push(s8, "os"@, crate::filter::os_opt(f.os), key);
    lemma_values_opt_push(s9, "type"@, crate::filter::str_opt(f.image_type), key);
    lemma_values_opt_push(s10, "limit"@, crate::filter::limit_opt(f.limit), key);
}

/// Inside the tag segment, a key that belongs to exactly one entry collects
/// exactly that entry's value.
proof fn lemma_values_tag_one(
    ps: Seq<(Seq<char>, Seq<char>)>,
    tags: Seq<(String, String)>,
    i: int,
)
    requires
        0 <= i < tags.len(),
        forall|j: int|
            0 <= j < tags.len() && j != i ==> (#[trigger] tags[j]).0@ != tags[i].0@,
        values_for_key(ps, "tag."@ + tags[i].0@) == Seq::<Seq<char>>::empty(),
    ensures
        values_for_key(tag_append(ps, tags), "tag."@ + tags[i].0@) == seq![tags[i].1@],
    decreases tags.len(),
{
    let key = "tag."@ + tags[i].0@;
    let last = tags.len() - 1;
    lemma_values_push(
        tag_append(ps, tags.drop_last()),
        key,
        ("tag."@ + tags.last().0@, tags.last().1@),
    );
    if i == last {
        assert forall|j: int| 0 <= j < tags.drop_last().len() implies "tag."@ + (#[trigger]
        tags.drop_last()[j]).0@ != key by {
            lemma_concat_tag_injective(tags.drop_last()[j].0@, tags[i].0@);
        }
        lemma_values_tag_append_other(ps, tags.drop_last(), key);
        assert(values_for_key(tag_append(ps, tags), key) =~= seq![tags[i].1@]);
    } else {
        assert(tags.drop_last()[i] == tags[i]);
        lemma_values_tag_one(ps, tags.drop_last(), i);
        lemma_concat_tag_injective(tags.last().0@, tags[i].0@);
        assert(values_for_key(tag_append(ps, tags), key) == values_for_key(
            tag_append(ps, tags.drop_last()),
            key,
        ));
    }
}

/// Two different tag keys stay different under the `tag.` prefix.
proof fn lemma_concat_tag_injective(a: Seq<char>, b: Seq<char>)
    requires
        a != b,
    ensures
        "tag."@ + a != "tag."@ + b,
{
    broadcast use vstd::seq_lib::group_seq_properties;

    reveal_strlit("tag.");
    assert("tag."@.len() == 4);
    if "tag."@ + a == "tag."@ + b {
        assert(("tag."@ + a).len() == ("tag."@ + b).len());
        assert(a.len() == b.len());
        assert forall|i: int| 0 <= i < a.len() implies a[i] == b[i] by {
            assert(("tag."@ + a)[4 + i] == a[i]);
            assert(("tag."@ + b)[4 + i] == b[i]);
        }
        assert(a =~= b);
    }
}

} // verus!
