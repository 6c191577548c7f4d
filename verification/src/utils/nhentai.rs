//! Galleries of nhentai.net as its API describes them, and what the bot shows of one.

use vstd::prelude::*;
use crate::text::{decimal, i64_text};

verus! {

broadcast use vstd::string::group_string_axioms;

/// A tag of a gallery; `tag_type` is `"tag"` for plain tags, else a category
/// such as `"artist"` or `"language"`.
#[derive(Debug)]
pub struct Tag {
    pub id: i64,
    pub tag_type: String,
    pub name: String,
    pub url: String,
    pub count: i64,
}

#[derive(Debug)]
pub struct Title {
    pub english: String,
    pub japanese: String,
    pub pretty: String,
}

#[derive(Debug)]
pub struct Image {
    pub t: String,
    pub w: i32,
    pub h: i32,
}

#[derive(Debug)]
pub struct Images {
    pub pages: Vec<Image>,
    pub cover: Image,
    pub thumbnail: Image,
}

#[derive(Debug)]
pub struct Gallery {
    pub id: i64,
    pub media_id: String,
    pub title: Title,
    pub images: Images,
    pub scanlator: String,
    pub upload_date: i64,
    pub tags: Vec<Tag>,
    pub num_pages: i64,
    pub num_favorites: i64,
}

/// The type of the tags that the listing shows.
pub open spec fn plain_tag_type() -> Seq<char> {
    seq!['t', 'a', 'g']
}

/// The separator of the listing.
pub open spec fn tag_separator() -> Seq<char> {
    seq![',', ' ']
}

/// The listing of `tags`: going through them in order, each tag of type `"tag"` either
/// starts the listing (while it is still empty) or is appended after `", "`.
pub open spec fn tags_text(tags: Seq<Tag>) -> Seq<char>
    decreases tags.len(),
{
    if tags.len() == 0 {
        Seq::empty()
    } else {
        let prev = tags_text(tags.drop_last());
        let tag = tags.last();
        if tag.tag_type@ == plain_tag_type() {
            if prev.len() == 0 {
                tag.name@
            } else {
                prev + tag_separator() + tag.name@
            }
        } else {
            prev
        }
    }
}

/// The names of the tags of type `"tag"`, in order.
pub open spec fn plain_tag_names(tags: Seq<Tag>) -> Seq<Seq<char>>
    decreases tags.len(),
{
    if tags.len() == 0 {
        Seq::empty()
    } else {
        let prev = plain_tag_names(tags.drop_last());
        if tags.last().tag_type@ == plain_tag_type() {
            prev.push(tags.last().name@)
        } else {
            prev
        }
    }
}

/// `parts` joined by `sep`.
pub open spec fn join(parts: Seq<Seq<char>>, sep: Seq<char>) -> Seq<char>
    decreases parts.len(),
{
    if parts.len() == 0 {
        Seq::empty()
    } else if parts.len() == 1 {
        parts[0]
    } else {
        join(parts.drop_last(), sep) + sep + parts.last()
    }
}

/// Where no tag of type `"tag"` has an empty name, the listing is exactly the names of
/// the tags of type `"tag"`, in order, joined by `", "`; tags of other types do not appear.
pub proof fn lemma_tags_text_joins_plain_tag_names(tags: Seq<Tag>)
    requires
        forall|i: int|
            0 <= i < tags.len() && #[trigger] tags[i].tag_type@ == plain_tag_type()
                ==> tags[i].name@.len() > 0,
    ensures
        tags_text(tags) == join(plain_tag_names(tags), tag_separator()),
        tags_text(tags).len() == 0 <==> plain_tag_names(tags).len() == 0,
    decreases tags.len(),
{
    if tags.len() > 0 {
        let init = tags.drop_last();
        assert forall|i: int|
            0 <= i < init.len() && #[trigger] init[i].tag_type@ == plain_tag_type()
                implies init[i].name@.len() > 0 by {
            assert(init[i] == tags[i]);
        }
        lemma_tags_text_joins_plain_tag_names(init);
        let last = tags.last();
        assert(last == tags[tags.len() - 1]);
        if last.tag_type@ == plain_tag_type() {
            let names = plain_tag_names(init).push(last.name@);
            assert(names.drop_last() =~= plain_tag_names(init));
            assert(names.last() == last.name@);
            if plain_tag_names(init).len() == 0 {
                assert(names.len() == 1);
                assert(names[0] == last.name@);
            }
        }
    }
}

/// `names` without its leading empty names.
pub open spec fn drop_leading_empty(names: Seq<Seq<char>>) -> Seq<Seq<char>>
    decreases names.len(),
{
    if names.len() == 0 {
        names
    } else if names[0].len() == 0 {
        drop_leading_empty(names.drop_first())
    } else {
        names
    }
}

proof fn lemma_drop_leading_empty_push(names: Seq<Seq<char>>, name: Seq<char>)
    ensures
        drop_leading_empty(names.push(name)) == (if drop_leading_empty(names).len() == 0 {
            if name.len() == 0 {
                Seq::<Seq<char>>::empty()
            } else {
                seq![name]
            }
        } else {
            drop_leading_empty(names).push(name)
        }),
    decreases names.len(),
{
    let pushed = names.push(name);
    if names.len() == 0 {
        assert(drop_leading_empty(names) == names);
        assert(pushed =~= seq![name]);
        if name.len() == 0 {
            assert(pushed.drop_first() =~= Seq::<Seq<char>>::empty());
            assert(drop_leading_empty(pushed.drop_first()) == pushed.drop_first());
            assert(drop_leading_empty(pushed) == drop_leading_empty(pushed.drop_first()));
        } else {
            assert(drop_leading_empty(pushed) == pushed);
        }
    } else if names[0].len() == 0 {
        assert(pushed[0] == names[0]);
        assert(pushed.drop_first() =~= names.drop_first().push(name));
        lemma_drop_leading_empty_push(names.drop_first(), name);
        assert(drop_leading_empty(pushed) == drop_leading_empty(pushed.drop_first()));
        assert(drop_leading_empty(names) == drop_leading_empty(names.drop_first()));
    } else {
        assert(pushed[0] == names[0]);
        assert(drop_leading_empty(pushed) == pushed);
        assert(drop_leading_empty(names) == names);
    }
}

/// The listing of a gallery's tags is the names of its tags of type `"tag"`, in order,
/// after the leading empty ones, joined by `", "`: an empty name leaves a still-empty
/// listing empty, and is kept (as an empty part) once the listing has begun.
pub proof fn lemma_tags_text_joins_after_leading_empty(tags: Seq<Tag>)
    ensures
        tags_text(tags) == join(drop_leading_empty(plain_tag_names(tags)), tag_separator()),
        tags_text(tags).len() == 0 <==> drop_leading_empty(plain_tag_names(tags)).len() == 0,
    decreases tags.len(),
{
    if tags.len() > 0 {
        let init = tags.drop_last();
        lemma_tags_text_joins_after_leading_empty(init);
        let last = tags.last();
        if last.tag_type@ == plain_tag_type() {
            let names = plain_tag_names(init);
            lemma_drop_leading_empty_push(names, last.name@);
            let d = drop_leading_empty(names);
            if d.len() == 0 {
                if last.name@.len() == 0 {
                    assert(last.name@ =~= Seq::<char>::empty());
                } else {
                    assert(seq![last.name@][0] == last.name@);
                }
            } else {
                let d2 = d.push(last.name@);
                assert(d2.drop_last() =~= d);
                assert(d2.last() == last.name@);
            }
        }
    }
}

/// No `", "` occurs in `s`.
pub open spec fn separator_free(s: Seq<char>) -> bool {
    forall|i: int| 0 <= i && i + 1 < s.len() ==> !(#[trigger] s[i] == ',' && s[i + 1] == ' ')
}

/// `s` split at each `", "`, from left to right (as `str::split(", ")` does).
pub open spec fn split_at_separator(s: Seq<char>) -> Seq<Seq<char>>
    decreases s.len(),
{
    if s.len() == 0 {
        seq![Seq::<char>::empty()]
    } else if s.len() >= 2 && s[0] == ',' && s[1] == ' ' {
        seq![Seq::<char>::empty()] + split_at_separator(s.skip(2))
    } else {
        let rest = split_at_separator(s.drop_first());
        rest.update(0, seq![s[0]] + rest[0])
    }
}

proof fn lemma_split_len(s: Seq<char>)
    ensures
        split_at_separator(s).len() >= 1,
    decreases s.len(),
{
    if s.len() > 0 {
        if s.len() >= 2 && s[0] == ',' && s[1] == ' ' {
            lemma_split_len(s.skip(2));
        } else {
            lemma_split_len(s.drop_first());
        }
    }
}

proof fn lemma_split_separator_free(x: Seq<char>)
    requires
        separator_free(x),
    ensures
        split_at_separator(x) == seq![x],
    decreases x.len(),
{
    if x.len() == 0 {
        assert(x =~= Seq::<char>::empty());
    } else {
        if x.len() >= 2 {
            assert(!(x[0] == ',' && x[1] == ' '));
        }
        let t = x.drop_first();
        assert forall|i: int| 0 <= i && i + 1 < t.len() implies !(#[trigger] t[i] == ',' && t[i + 1] == ' ') by {
            assert(t[i] == x[i + 1] && t[i + 1] == x[i + 2]);
        }
        lemma_split_separator_free(t);
        assert(seq![x[0]] + t =~= x);
        assert(split_at_separator(x) =~= seq![x]);
    }
}

proof fn lemma_split_after_part(x: Seq<char>, rest: Seq<char>)
    requires
        separator_free(x),
    ensures
        split_at_separator(x + tag_separator() + rest) == seq![x] + split_at_separator(rest),
    decreases x.len(),
{
    let s = x + tag_separator() + rest;
    lemma_split_len(rest);
    if x.len() == 0 {
        assert(s.skip(2) =~= rest);
        assert(x =~= Seq::<char>::empty());
    } else {
        if x.len() >= 2 {
            assert(!(x[0] == ',' && x[1] == ' '));
            assert(s[0] == x[0] && s[1] == x[1]);
        } else {
            assert(s[1] == ',');
        }
        let t = x.drop_first();
        assert forall|i: int| 0 <= i && i + 1 < t.len() implies !(#[trigger] t[i] == ',' && t[i + 1] == ' ') by {
            assert(t[i] == x[i + 1] && t[i + 1] == x[i + 2]);
        }
        assert(s.drop_first() =~= t + tag_separator() + rest);
        lemma_split_after_part(t, rest);
        assert(seq![x[0]] + t =~= x);
        assert(split_at_separator(s) =~= seq![x] + split_at_separator(rest));
    }
}

proof fn lemma_join_front(parts: Seq<Seq<char>>)
    requires
        parts.len() >= 2,
    ensures
        join(parts, tag_separator()) == parts[0] + tag_separator() + join(
            parts.drop_first(),
            tag_separator(),
        ),
    decreases parts.len(),
{
    let sep = tag_separator();
    if parts.len() > 2 {
        let init = parts.drop_last();
        let tail = parts.drop_first();
        lemma_join_front(init);
        assert(init.drop_first() =~= tail.drop_last());
        assert(tail.last() == parts.last());
        assert(init[0] == parts[0]);
        assert(join(tail, sep) == join(tail.drop_last(), sep) + sep + tail.last());
        assert(join(parts, sep) == join(init, sep) + sep + parts.last());
        assert(join(parts, sep) =~= parts[0] + sep + join(tail, sep));
    } else {
        assert(parts.drop_last() =~= seq![parts[0]]);
        assert(parts.drop_first() =~= seq![parts[1]]);
        assert(join(parts, sep) == join(parts.drop_last(), sep) + sep + parts.last());
        assert(join(parts, sep) =~= parts[0] + sep + join(parts.drop_first(), sep));
    }
}

proof fn lemma_split_join(parts: Seq<Seq<char>>)
    requires
        parts.len() >= 1,
        forall|j: int| 0 <= j < parts.len() ==> separator_free(#[trigger] parts[j]),
    ensures
        split_at_separator(join(parts, tag_separator())) == parts,
    decreases parts.len(),
{
    if parts.len() == 1 {
        lemma_split_separator_free(parts[0]);
        assert(seq![parts[0]] =~= parts);
    } else {
        let tail = parts.drop_first();
        assert forall|j: int| 0 <= j < tail.len() implies separator_free(#[trigger] tail[j]) by {
            assert(tail[j] == parts[j + 1]);
        }
        lemma_join_front(parts);
        lemma_split_join(tail);
        lemma_split_after_part(parts[0], join(tail, tag_separator()));
        assert(seq![parts[0]] + tail =~= parts);
    }
}

/// Where the gallery has tags of type `"tag"` and none of their names is empty or holds
/// `", "`, splitting the listing at `", "` gives back exactly those names, in order.
pub proof fn lemma_tags_text_splits_back(tags: Seq<Tag>)
    requires
        plain_tag_names(tags).len() >= 1,
        forall|j: int|
            0 <= j < plain_tag_names(tags).len() ==> (#[trigger] plain_tag_names(tags)[j]).len() > 0
                && separator_free(plain_tag_names(tags)[j]),
    ensures
        split_at_separator(tags_text(tags)) == plain_tag_names(tags),
{
    let names = plain_tag_names(tags);
    lemma_tags_text_joins_after_leading_empty(tags);
    assert(names[0].len() > 0);
    assert(drop_leading_empty(names) == names);
    lemma_split_join(names);
}

impl Gallery {
    /// The names of the gallery's tags of type `"tag"`, separated by `", "`.
    pub fn get_tags(self) -> (f: String)
        ensures
            f@ == tags_text(self.tags@),
    {
        let mut f = String::new();
        let plain = "tag".to_string();
        proof {
            reveal_strlit("tag");
        }
        let n = self.tags.len();
        assert(self.tags@.take(0) =~= Seq::<Tag>::empty());
        for i in 0..n
            invariant
                n == self.tags@.len(),
                plain@ == plain_tag_type(),
                f@ == tags_text(self.tags@.take(i as int)),
        {
            let tag = &self.tags[i];
            let ghost prefix = self.tags@.take(i + 1);
            assert(prefix.drop_last() =~= self.tags@.take(i as int));
            assert(prefix.last() == self.tags@[i as int]);
            proof {
                reveal_strlit(", ");
                assert(", "@ =~= tag_separator());
            }
            if tag.tag_type == plain {
                if f == String::new() {
                    f = tag.name.clone();
                    assert(f@ == tags_text(prefix));
                } else {
                    assert(f@.len() > 0) by {
                        if f@.len() == 0 {
                            assert(f@ =~= Seq::<char>::empty());
                        }
                    }
                    f = f.concat(", ").concat(tag.name.as_str());
                    assert(f@ == tags_text(prefix));
                }
            } else {
                assert(f@ == tags_text(prefix));
            }
        }
        assert(self.tags@.take(n as int) =~= self.tags@);
        f
    }
}

/// The address of the API entry of gallery `id`.
pub fn gallery_api_url(id: i64) -> (url: String)
    ensures
        url@ == "https://nhentai.net/api/gallery/"@ + decimal(id as int),
{
    let mut url = "https://nhentai.net/api/gallery/".to_string();
    let digits = i64_text(id);
    url.append(digits.as_str());
    url
}

/// The address of the page of gallery `id`.
pub fn gallery_link(id: i64) -> (url: String)
    ensures
        url@ == "https://nhentai.net/g/"@ + decimal(id as int),
{
    let mut url = "https://nhentai.net/g/".to_string();
    let digits = i64_text(id);
    url.append(digits.as_str());
    url
}

} // verus!
