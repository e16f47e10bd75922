//! Index entries of the two content categories, and the lookups and filters
//! that the pages are built from.
use vstd::prelude::*;
use crate::pages::{post_of, project_of, Post, Project};

verus! {

/// What can go wrong while a page's content is gathered.
#[derive(Debug, Clone, Copy, PartialEq, Eq, Structural)]
pub enum ContentError {
    /// The requested id is not in the index.
    NotFound,
    /// The index is not valid JSON, lacks a required field, or repeats an id.
    MalformedIndex,
    /// A file could not be read.
    IoFailure,
    /// A page template could not be filled in.
    RenderFailure,
}

impl ContentError {
    pub open spec fn spec_status(self) -> u16 {
        match self {
            ContentError::NotFound => 404,
            _ => 500,
        }
    }

    /// The HTTP status that answers this error: 404 for an absent id, 500 for
    /// the rest.
    pub fn status(&self) -> (r: u16)
        ensures
            r == self.spec_status(),
    {
        match self {
            ContentError::NotFound => 404,
            _ => 500,
        }
    }
}

/// A post as the posts index lists it.
#[derive(Debug)]
pub struct PostEntry {
    pub id: String,
    pub file: String,
    pub title: String,
    pub publish_date: String,
    pub thumbnail: Option<String>,
    pub tags: Vec<String>,
}

/// A project as the projects index lists it.
#[derive(Debug)]
pub struct ProjectEntry {
    pub id: String,
    pub file: String,
    pub title: String,
    pub github_link: String,
    pub thumbnail: Option<String>,
}

/// No two posts share an id.
pub open spec fn post_ids_unique(s: Seq<PostEntry>) -> bool {
    forall|i: int, j: int|
        0 <= i < s.len() && 0 <= j < s.len() && #[trigger] s[i].id@ == #[trigger] s[j].id@ ==> i
            == j
}

/// No two projects share an id.
pub open spec fn project_ids_unique(s: Seq<ProjectEntry>) -> bool {
    forall|i: int, j: int|
        0 <= i < s.len() && 0 <= j < s.len() && #[trigger] s[i].id@ == #[trigger] s[j].id@ ==> i
            == j
}

/// Some post of the index has this id.
pub open spec fn has_post(s: Seq<PostEntry>, id: Seq<char>) -> bool {
    exists|i: int| 0 <= i < s.len() && #[trigger] s[i].id@ == id
}

/// Some project of the index has this id.
pub open spec fn has_project(s: Seq<ProjectEntry>, id: Seq<char>) -> bool {
    exists|i: int| 0 <= i < s.len() && #[trigger] s[i].id@ == id
}

/// `r` is the position of the first post with this id, or `NotFound` when
/// there is none.
pub open spec fn post_lookup(s: Seq<PostEntry>, id: Seq<char>, r: Result<usize, ContentError>) -> bool {
    match r {
        Ok(i) => i < s.len() && s[i as int].id@ == id && forall|k: int|
            0 <= k < i ==> #[trigger] s[k].id@ != id,
        Err(e) => e == ContentError::NotFound && !has_post(s, id),
    }
}

/// `r` is the position of the first project with this id, or `NotFound` when
/// there is none.
pub open spec fn project_lookup(s: Seq<ProjectEntry>, id: Seq<char>, r: Result<usize, ContentError>) -> bool {
    match r {
        Ok(i) => i < s.len() && s[i as int].id@ == id && forall|k: int|
            0 <= k < i ==> #[trigger] s[k].id@ != id,
        Err(e) => e == ContentError::NotFound && !has_project(s, id),
    }
}

/// The post carries this tag, compared character for character.
pub open spec fn has_tag(e: PostEntry, tag: Seq<char>) -> bool {
    exists|k: int| 0 <= k < e.tags@.len() && #[trigger] e.tags@[k]@ == tag
}

/// The test that picks the posts carrying `tag`.
pub open spec fn tagged(tag: Seq<char>) -> spec_fn(PostEntry) -> bool {
    |e: PostEntry| has_tag(e, tag)
}

/// `r` holds, in order, the entries of `s` found at the positions `pos`.
pub open spec fn picked_at(r: Seq<PostEntry>, s: Seq<PostEntry>, pos: Seq<int>) -> bool {
    &&& pos.len() == r.len()
    &&& forall|k: int| 0 <= k < pos.len() ==> 0 <= #[trigger] pos[k] < s.len() && s[pos[k]] == r[k]
    &&& forall|k: int, l: int| 0 <= k < l < pos.len() ==> #[trigger] pos[k] < #[trigger] pos[l]
}

/// Two strings hold the same characters.
fn same_text(a: &String, b: &String) -> (r: bool)
    ensures
        r == (a@ == b@),
{
    *a == *b
}

/// The position of the post with this id: `NotFound` exactly when the index
/// holds no such post.
pub fn find_post(entries: &Vec<PostEntry>, id: &str) -> (r: Result<usize, ContentError>)
    ensures
        post_lookup(entries@, id@, r),
{
    let key = id.to_owned();
    let mut i: usize = 0;
    while i < entries.len()
        invariant
            i <= entries@.len(),
            key@ == id@,
            forall|k: int| 0 <= k < i ==> #[trigger] entries@[k].id@ != id@,
        decreases entries@.len() - i,
    {
        if same_text(&entries[i].id, &key) {
            return Ok(i);
        }
        i = i + 1;
    }
    Err(ContentError::NotFound)
}

/// The position of the project with this id: `NotFound` exactly when the
/// index holds no such project.
pub fn find_project(entries: &Vec<ProjectEntry>, id: &str) -> (r: Result<usize, ContentError>)
    ensures
        project_lookup(entries@, id@, r),
{
    let key = id.to_owned();
    let mut i: usize = 0;
    while i < entries.len()
        invariant
            i <= entries@.len(),
            key@ == id@,
            forall|k: int| 0 <= k < i ==> #[trigger] entries@[k].id@ != id@,
        decreases entries@.len() - i,
    {
        if same_text(&entries[i].id, &key) {
            return Ok(i);
        }
        i = i + 1;
    }
    Err(ContentError::NotFound)
}

/// `r` is the first post of `s` with this id, or `NotFound` when there is
/// none.
pub open spec fn post_taken(s: Seq<PostEntry>, id: Seq<char>, r: Result<PostEntry, ContentError>) -> bool {
    match r {
        Ok(e) => exists|i: usize| i < s.len() && #[trigger] s[i as int] == e && post_lookup(s, id, Ok(i)),
        Err(e) => e == ContentError::NotFound && !has_post(s, id),
    }
}

/// Takes the post with this id out of the index.
pub fn take_post(entries: Vec<PostEntry>, id: &str) -> (r: Result<PostEntry, ContentError>)
    ensures
        post_taken(entries@, id@, r),
{
    match find_post(&entries, id) {
        Ok(i) => {
            let mut entries = entries;
            let e = entries.remove(i);
            Ok(e)
        },
        Err(e) => Err(e),
    }
}

/// `r` is the first project of `s` with this id, or `NotFound` when there is
/// none.
pub open spec fn project_taken(s: Seq<ProjectEntry>, id: Seq<char>, r: Result<ProjectEntry, ContentError>) -> bool {
    match r {
        Ok(e) => exists|i: usize| i < s.len() && #[trigger] s[i as int] == e && project_lookup(s, id, Ok(i)),
        Err(e) => e == ContentError::NotFound && !has_project(s, id),
    }
}

/// Takes the project with this id out of the index.
pub fn take_project(entries: Vec<ProjectEntry>, id: &str) -> (r: Result<ProjectEntry, ContentError>)
    ensures
        project_taken(entries@, id@, r),
{
    match find_project(&entries, id) {
        Ok(i) => {
            let mut entries = entries;
            let e = entries.remove(i);
            Ok(e)
        },
        Err(e) => Err(e),
    }
}

/// Whether the post carries `tag`, compared exactly and case-sensitively.
pub fn post_has_tag(entry: &PostEntry, tag: &String) -> (r: bool)
    ensures
        r == has_tag(*entry, tag@),
{
    let mut k: usize = 0;
    while k < entry.tags.len()
        invariant
            k <= entry.tags@.len(),
            forall|j: int| 0 <= j < k ==> #[trigger] entry.tags@[j]@ != tag@,
        decreases entry.tags@.len() - k,
    {
        if same_text(&entry.tags[k], tag) {
            return true;
        }
        k = k + 1;
    }
    false
}

/// The posts that carry `tag`, in index order. A tag that no post carries
/// gives an empty listing.
pub fn tagged_posts(entries: Vec<PostEntry>, tag: &str) -> (r: Vec<PostEntry>)
    ensures
        r@ == entries@.filter(tagged(tag@)),
{
    let key = tag.to_owned();
    let ghost all = entries@;
    let mut rest = entries;
    let mut out: Vec<PostEntry> = Vec::new();
    let ghost mut i: int = 0;
    while rest.len() > 0
        invariant
            0 <= i <= all.len(),
            rest@ == all.skip(i),
            out@ == all.take(i).filter(tagged(tag@)),
            key@ == tag@,
        decreases rest@.len(),
    {
        let e = rest.remove(0);
        proof {
            assert(all.take(i + 1).drop_last() == all.take(i));
            assert(all.take(i + 1).last() == e);
            reveal(Seq::filter);
        }
        if post_has_tag(&e, &key) {
            out.push(e);
        }
        proof {
            i = i + 1;
            assert(rest@ == all.skip(i));
        }
    }
    assert(all.take(all.len() as int) == all);
    out
}

/// Whether every id of the posts index occurs once: false where some id
/// occurs twice.
pub fn check_post_ids(entries: &Vec<PostEntry>) -> (r: bool)
    ensures
        r == post_ids_unique(entries@),
{
    let mut i: usize = 0;
    while i < entries.len()
        invariant
            i <= entries@.len(),
            forall|a: int, b: int|
                0 <= a < i && 0 <= b < entries@.len() && #[trigger] entries@[a].id@
                    == #[trigger] entries@[b].id@ ==> a == b,
        decreases entries@.len() - i,
    {
        let mut j: usize = 0;
        while j < entries.len()
            invariant
                i < entries@.len(),
                j <= entries@.len(),
                forall|b: int|
                    0 <= b < j && entries@[i as int].id@ == #[trigger] entries@[b].id@ ==> b == i,
            decreases entries@.len() - j,
        {
            if j != i && same_text(&entries[i].id, &entries[j].id) {
                return false;
            }
            j = j + 1;
        }
        i = i + 1;
    }
    true
}

/// Whether every id of the projects index occurs once: false where some id
/// occurs twice.
pub fn check_project_ids(entries: &Vec<ProjectEntry>) -> (r: bool)
    ensures
        r == project_ids_unique(entries@),
{
    let mut i: usize = 0;
    while i < entries.len()
        invariant
            i <= entries@.len(),
            forall|a: int, b: int|
                0 <= a < i && 0 <= b < entries@.len() && #[trigger] entries@[a].id@
                    == #[trigger] entries@[b].id@ ==> a == b,
        decreases entries@.len() - i,
    {
        let mut j: usize = 0;
        while j < entries.len()
            invariant
                i < entries@.len(),
                j <= entries@.len(),
                forall|b: int|
                    0 <= b < j && entries@[i as int].id@ == #[trigger] entries@[b].id@ ==> b == i,
            decreases entries@.len() - j,
        {
            if j != i && same_text(&entries[i].id, &entries[j].id) {
                return false;
            }
            j = j + 1;
        }
        i = i + 1;
    }
    true
}

/// Taking an id that the index lists always succeeds, on the entry with that
/// id, and the post page built from it shows the entry's title.
pub proof fn lemma_listed_post_is_found(
    s: Seq<PostEntry>,
    id: Seq<char>,
    r: Result<PostEntry, ContentError>,
    page: Post,
    html: Seq<char>,
)
    requires
        has_post(s, id),
        post_taken(s, id, r),
        r is Ok ==> post_of(r->Ok_0, html, page),
    ensures
        r is Ok,
        r->Ok_0.id@ == id,
        exists|i: int| 0 <= i < s.len() && s[i].id@ == id && page.title == #[trigger] s[i].title,
{
    if r is Ok {
        let i = choose|i: usize| i < s.len() && #[trigger] s[i as int] == r->Ok_0 && post_lookup(s, id, Ok(i));
        assert(s[i as int].id@ == id);
    }
}

/// Taking an id that the projects index lists always succeeds, on the entry
/// with that id, and the project page built from it shows the entry's title.
pub proof fn lemma_listed_project_is_found(
    s: Seq<ProjectEntry>,
    id: Seq<char>,
    r: Result<ProjectEntry, ContentError>,
    page: Project,
    html: Seq<char>,
)
    requires
        has_project(s, id),
        project_taken(s, id, r),
        r is Ok ==> project_of(r->Ok_0, html, page),
    ensures
        r is Ok,
        r->Ok_0.id@ == id,
        exists|i: int| 0 <= i < s.len() && s[i].id@ == id && page.title == #[trigger] s[i].title,
{
    if r is Ok {
        let i = choose|i: usize| i < s.len() && #[trigger] s[i as int] == r->Ok_0 && project_lookup(s, id, Ok(i));
        assert(s[i as int].id@ == id);
    }
}

/// Looking up an id that the posts index does not list gives `NotFound`,
/// answered with a 404.
pub proof fn lemma_absent_post_is_not_found(s: Seq<PostEntry>, id: Seq<char>, r: Result<PostEntry, ContentError>)
    requires
        !has_post(s, id),
        post_taken(s, id, r),
    ensures
        r == Err::<PostEntry, ContentError>(ContentError::NotFound),
        ContentError::NotFound.spec_status() == 404,
{
}

/// Looking up an id that the projects index does not list gives `NotFound`.
pub proof fn lemma_absent_project_is_not_found(
    s: Seq<ProjectEntry>,
    id: Seq<char>,
    r: Result<ProjectEntry, ContentError>,
)
    requires
        !has_project(s, id),
        project_taken(s, id, r),
    ensures
        r == Err::<ProjectEntry, ContentError>(ContentError::NotFound),
{
}

/// A tag listing holds only posts that carry the tag, character for
/// character, and every post of the index that carries it.
pub proof fn lemma_tag_listing_is_exact(s: Seq<PostEntry>, tag: Seq<char>)
    ensures
        forall|k: int|
            0 <= k < s.filter(tagged(tag)).len() ==> has_tag(#[trigger] s.filter(tagged(tag))[k], tag),
        forall|i: int| 0 <= i < s.len() && has_tag(#[trigger] s[i], tag) ==> s.filter(tagged(tag)).contains(s[i]),
{
    assert forall|k: int| 0 <= k < s.filter(tagged(tag)).len() implies has_tag(
        #[trigger] s.filter(tagged(tag))[k],
        tag,
    ) by {
        s.lemma_filter_pred(tagged(tag), k);
    }
    assert forall|i: int| 0 <= i < s.len() && has_tag(#[trigger] s[i], tag) implies s.filter(
        tagged(tag),
    ).contains(s[i]) by {
        s.lemma_filter_contains(tagged(tag), i);
    }
}

/// A tag listing keeps the order of the index: its posts stand at increasing
/// positions of the index.
pub proof fn lemma_tag_listing_keeps_index_order(s: Seq<PostEntry>, tag: Seq<char>)
    ensures
        exists|pos: Seq<int>| picked_at(s.filter(tagged(tag)), s, pos),
    decreases s.len(),
{
    reveal(Seq::filter);
    if s.len() == 0 {
        assert(picked_at(s.filter(tagged(tag)), s, Seq::<int>::empty()));
    } else {
        let front = s.drop_last();
        lemma_tag_listing_keeps_index_order(front, tag);
        let pos = choose|pos: Seq<int>| picked_at(front.filter(tagged(tag)), front, pos);
        if has_tag(s.last(), tag) {
            let more = pos.push(s.len() - 1);
            assert(picked_at(s.filter(tagged(tag)), s, more));
        } else {
            assert(picked_at(s.filter(tagged(tag)), s, pos));
        }
    }
}

} // verus!
