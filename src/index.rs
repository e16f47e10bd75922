//! Reading the posts and projects indexes out of their JSON documents.
use vstd::prelude::*;
use vstd::string::StringSliceAdditionalSpecFns;
use crate::content::{
    check_post_ids, check_project_ids, post_ids_unique, project_ids_unique, ContentError,
    PostEntry, ProjectEntry,
};

verus! {

#[verifier::external_type_specification]
#[verifier::external_body]
pub struct ExJsonValue(json::JsonValue);

#[verifier::external_type_specification]
#[verifier::external_body]
pub struct ExJsonError(json::Error);

/// The fields of a JSON object whose value is a string, by key; empty for a
/// value that is not an object.
pub uninterp spec fn json_string_fields(v: json::JsonValue) -> Map<Seq<char>, Seq<char>>;

/// The document that the JSON parser reads from `text`, or none where the
/// text is not JSON.
pub uninterp spec fn json_document(text: Seq<char>) -> Option<json::JsonValue>;

/// The elements of the field `key` of a JSON value where that field is an
/// array; empty otherwise.
pub uninterp spec fn json_members(v: json::JsonValue, key: Seq<char>) -> Seq<json::JsonValue>;

/// The longest run of consecutive ASCII digits that the JSON parser is handed.
/// It counts the fraction digits of a number down in an `i16` exponent, so a
/// longer run could overflow it.
pub const MAX_DIGIT_RUN: usize = 32767;

pub open spec fn is_ascii_digit(b: u8) -> bool {
    48 <= b <= 57
}

/// The bytes ending at position `j` hold a run of more than `MAX_DIGIT_RUN`
/// ASCII digits.
pub open spec fn long_digit_run_at(b: Seq<u8>, j: int) -> bool {
    &&& j + 1 > MAX_DIGIT_RUN
    &&& forall|k: int| j - MAX_DIGIT_RUN <= k <= j ==> is_ascii_digit(#[trigger] b[k])
}

/// No run of consecutive ASCII digits in the bytes is longer than
/// `MAX_DIGIT_RUN`.
pub open spec fn digit_runs_bounded(b: Seq<u8>) -> bool {
    forall|j: int| 0 <= j < b.len() ==> !#[trigger] long_digit_run_at(b, j)
}

/// Relies on json::parse: the document held in `text`, or the error that
/// stopped the parser. The outcome depends on the text alone. Every run of
/// digits in a number's fraction lowers an `i16` exponent by one per digit,
/// from zero or above, without an overflow check; other counts saturate or
/// are checked. Bounded digit runs keep that exponent in range.
#[verifier::external_body]
fn parse_json(text: &str) -> (r: Result<json::JsonValue, json::Error>)
    requires
        digit_runs_bounded(text.spec_bytes()),
    ensures
        r is Ok <==> json_document(text@) is Some,
        r is Ok ==> json_document(text@) == Some(r->Ok_0),
{
    json::parse(text)
}

/// Whether no run of consecutive ASCII digits in `text` is longer than
/// `MAX_DIGIT_RUN`.
pub fn check_digit_runs(text: &str) -> (r: bool)
    ensures
        r == digit_runs_bounded(text.spec_bytes()),
{
    let b = text.as_bytes();
    let mut run: usize = 0;
    let mut pos: usize = 0;
    while pos < b.len()
        invariant
            b@ == text.spec_bytes(),
            pos <= b@.len(),
            run <= pos,
            run < MAX_DIGIT_RUN + 1,
            forall|k: int| pos - run <= k < pos ==> is_ascii_digit(#[trigger] b@[k]),
            run < pos ==> !is_ascii_digit(b@[pos - run - 1]),
            forall|j: int| 0 <= j < pos ==> !#[trigger] long_digit_run_at(b@, j),
        decreases b@.len() - pos,
    {
        let c = b[pos];
        if 48 <= c && c <= 57 {
            if run == MAX_DIGIT_RUN {
                assert(long_digit_run_at(b@, pos as int));
                assert(0 <= pos < b@.len());
                assert(!digit_runs_bounded(b@));
                return false;
            }
            run = run + 1;
            if run < pos + 1 {
                assert(!is_ascii_digit(b@[pos - run]));
            }
            assert(!long_digit_run_at(b@, pos as int));
        } else {
            run = 0;
            assert(!long_digit_run_at(b@, pos as int));
        }
        pos = pos + 1;
    }
    true
}

/// Relies on indexing a json::JsonValue by key, then JsonValue::as_str: the
/// value of the field `key` where it is a string. Indexing a missing key or a
/// value that is not an object gives null, which as_str maps to None.
#[verifier::external_body]
fn string_field(v: &json::JsonValue, key: &str) -> (r: Option<String>)
    ensures
        r is Some <==> json_string_fields(*v).contains_key(key@),
        r is Some ==> r->0@ == json_string_fields(*v)[key@],
{
    v[key].as_str().map(|s| s.to_string())
}

/// Relies on indexing a json::JsonValue by key, then JsonValue::members: the
/// elements of the field `key` where it is an array, and none otherwise.
#[verifier::external_body]
fn array_field(v: &json::JsonValue, key: &str) -> (r: Vec<json::JsonValue>)
    ensures
        r@ == json_members(*v, key@),
{
    v[key].members().cloned().collect()
}

/// The string fields that every post needs.
pub open spec fn has_post_fields(m: Map<Seq<char>, Seq<char>>) -> bool {
    &&& m.contains_key("id"@)
    &&& m.contains_key("file"@)
    &&& m.contains_key("title"@)
    &&& m.contains_key("publish_date"@)
}

/// The string fields that every project needs.
pub open spec fn has_project_fields(m: Map<Seq<char>, Seq<char>>) -> bool {
    &&& m.contains_key("id"@)
    &&& m.contains_key("file"@)
    &&& m.contains_key("title"@)
    &&& m.contains_key("github_link"@)
}

/// Every tag object has a string `name`.
pub open spec fn tags_named(tags: Seq<json::JsonValue>) -> bool {
    forall|k: int| 0 <= k < tags.len() ==> json_string_fields(#[trigger] tags[k]).contains_key("name"@)
}

/// `names` are the names of the tag objects, in their order.
pub open spec fn names_of(tags: Seq<json::JsonValue>, names: Seq<String>) -> bool {
    &&& names.len() == tags.len()
    &&& forall|k: int|
        0 <= k < tags.len() ==> #[trigger] names[k]@ == json_string_fields(tags[k])["name"@]
}

/// The object describes a post: it has the post's string fields and every
/// tag it lists has a name.
pub open spec fn is_post_object(v: json::JsonValue) -> bool {
    has_post_fields(json_string_fields(v)) && tags_named(json_members(v, "tags"@))
}

/// The object describes a project.
pub open spec fn is_project_object(v: json::JsonValue) -> bool {
    has_project_fields(json_string_fields(v))
}

/// The `id` fields of the objects are pairwise distinct.
pub open spec fn object_ids_distinct(objs: Seq<json::JsonValue>) -> bool {
    forall|i: int, j: int|
        0 <= i < objs.len() && 0 <= j < objs.len() && i != j ==> json_string_fields(#[trigger] objs[i])["id"@]
            != json_string_fields(#[trigger] objs[j])["id"@]
}

/// An optional field read as it stands in the object.
pub open spec fn optional_matches(m: Map<Seq<char>, Seq<char>>, key: Seq<char>, o: Option<String>) -> bool {
    match o {
        Some(s) => m.contains_key(key) && s@ == m[key],
        None => !m.contains_key(key),
    }
}

/// The post entry holds the object's fields and the names of its tags.
pub open spec fn post_matches(v: json::JsonValue, e: PostEntry) -> bool {
    let m = json_string_fields(v);
    &&& has_post_fields(m)
    &&& e.id@ == m["id"@]
    &&& e.file@ == m["file"@]
    &&& e.title@ == m["title"@]
    &&& e.publish_date@ == m["publish_date"@]
    &&& optional_matches(m, "thumbnail"@, e.thumbnail)
    &&& names_of(json_members(v, "tags"@), e.tags@)
}

/// The project entry holds the object's fields.
pub open spec fn project_matches(v: json::JsonValue, e: ProjectEntry) -> bool {
    let m = json_string_fields(v);
    &&& has_project_fields(m)
    &&& e.id@ == m["id"@]
    &&& e.file@ == m["file"@]
    &&& e.title@ == m["title"@]
    &&& e.github_link@ == m["github_link"@]
    &&& optional_matches(m, "thumbnail"@, e.thumbnail)
}

/// `r` is what the objects of a posts index give: the posts they describe,
/// in their order, where every object describes a post and no id repeats;
/// `MalformedIndex` otherwise.
pub open spec fn posts_read(objs: Seq<json::JsonValue>, r: Result<Vec<PostEntry>, ContentError>) -> bool {
    match r {
        Ok(posts) => {
            &&& posts@.len() == objs.len()
            &&& forall|k: int| 0 <= k < objs.len() ==> post_matches(#[trigger] objs[k], posts@[k])
            &&& forall|k: int| 0 <= k < objs.len() ==> is_post_object(#[trigger] objs[k])
            &&& post_ids_unique(posts@)
            &&& object_ids_distinct(objs)
        },
        Err(e) => e == ContentError::MalformedIndex && !((forall|k: int|
            0 <= k < objs.len() ==> is_post_object(#[trigger] objs[k])) && object_ids_distinct(objs)),
    }
}

/// `r` is what the objects of a projects index give.
pub open spec fn projects_read(objs: Seq<json::JsonValue>, r: Result<Vec<ProjectEntry>, ContentError>) -> bool {
    match r {
        Ok(projects) => {
            &&& projects@.len() == objs.len()
            &&& forall|k: int| 0 <= k < objs.len() ==> project_matches(#[trigger] objs[k], projects@[k])
            &&& forall|k: int| 0 <= k < objs.len() ==> is_project_object(#[trigger] objs[k])
            &&& project_ids_unique(projects@)
            &&& object_ids_distinct(objs)
        },
        Err(e) => e == ContentError::MalformedIndex && !((forall|k: int|
            0 <= k < objs.len() ==> is_project_object(#[trigger] objs[k])) && object_ids_distinct(objs)),
    }
}

/// Reads one field that the entry cannot do without.
fn required_field(v: &json::JsonValue, key: &str) -> (r: Result<String, ContentError>)
    ensures
        r is Ok <==> json_string_fields(*v).contains_key(key@),
        r is Ok ==> r->Ok_0@ == json_string_fields(*v)[key@],
        r is Err ==> r->Err_0 == ContentError::MalformedIndex,
{
    match string_field(v, key) {
        Some(s) => Ok(s),
        None => Err(ContentError::MalformedIndex),
    }
}

/// The names of a post's tags, each given as an object with a string field
/// `name`, in their order. A tag without a name makes the index malformed.
pub fn tag_names(tags: &Vec<json::JsonValue>) -> (r: Result<Vec<String>, ContentError>)
    ensures
        match r {
            Ok(names) => names@.len() == tags@.len() && forall|k: int|
                0 <= k < tags@.len() ==> json_string_fields(#[trigger] tags@[k]).contains_key("name"@)
                    && names@[k]@ == json_string_fields(tags@[k])["name"@],
            Err(e) => e == ContentError::MalformedIndex && exists|k: int|
                0 <= k < tags@.len() && !json_string_fields(#[trigger] tags@[k]).contains_key("name"@),
        },
{
    let mut names: Vec<String> = Vec::new();
    let mut k: usize = 0;
    while k < tags.len()
        invariant
            k <= tags@.len(),
            names@.len() == k,
            forall|j: int|
                0 <= j < k ==> json_string_fields(#[trigger] tags@[j]).contains_key("name"@)
                    && names@[j]@ == json_string_fields(tags@[j])["name"@],
        decreases tags@.len() - k,
    {
        match string_field(&tags[k], "name") {
            Some(name) => names.push(name),
            None => return Err(ContentError::MalformedIndex),
        }
        k = k + 1;
    }
    Ok(names)
}

/// Reads a post entry out of its object in the index.
pub fn post_entry(v: &json::JsonValue) -> (r: Result<PostEntry, ContentError>)
    ensures
        r is Ok <==> is_post_object(*v),
        r is Ok ==> post_matches(*v, r->Ok_0),
        r is Err ==> r->Err_0 == ContentError::MalformedIndex,
{
    let id = required_field(v, "id")?;
    let file = required_field(v, "file")?;
    let title = required_field(v, "title")?;
    let publish_date = required_field(v, "publish_date")?;
    let thumbnail = string_field(v, "thumbnail");
    let tags = tag_names(&array_field(v, "tags"))?;
    Ok(PostEntry { id, file, title, publish_date, thumbnail, tags })
}

/// Reads a project entry out of its object in the index.
pub fn project_entry(v: &json::JsonValue) -> (r: Result<ProjectEntry, ContentError>)
    ensures
        r is Ok <==> is_project_object(*v),
        r is Ok ==> project_matches(*v, r->Ok_0),
        r is Err ==> r->Err_0 == ContentError::MalformedIndex,
{
    let id = required_field(v, "id")?;
    let file = required_field(v, "file")?;
    let title = required_field(v, "title")?;
    let github_link = required_field(v, "github_link")?;
    let thumbnail = string_field(v, "thumbnail");
    Ok(ProjectEntry { id, file, title, github_link, thumbnail })
}

/// The posts described by the objects, in their order. An object that does
/// not describe a post, or an id given twice, makes the index malformed.
pub fn posts_from_objects(objs: &Vec<json::JsonValue>) -> (r: Result<Vec<PostEntry>, ContentError>)
    ensures
        posts_read(objs@, r),
{
    let mut posts: Vec<PostEntry> = Vec::new();
    let mut k: usize = 0;
    while k < objs.len()
        invariant
            k <= objs@.len(),
            posts@.len() == k,
            forall|j: int| 0 <= j < k ==> post_matches(#[trigger] objs@[j], posts@[j]),
            forall|j: int| 0 <= j < k ==> is_post_object(#[trigger] objs@[j]),
        decreases objs@.len() - k,
    {
        let entry = post_entry(&objs[k])?;
        posts.push(entry);
        k = k + 1;
    }
    assert(forall|i: int| 0 <= i < posts@.len() ==> #[trigger] posts@[i].id@ == json_string_fields(objs@[i])["id"@]);
    if check_post_ids(&posts) {
        Ok(posts)
    } else {
        assert(!object_ids_distinct(objs@)) by {
            let (i, j) = choose|i: int, j: int|
                0 <= i < posts@.len() && 0 <= j < posts@.len() && posts@[i].id@ == posts@[j].id@ && i != j;
            assert(json_string_fields(objs@[i])["id"@] == json_string_fields(objs@[j])["id"@]);
        }
        Err(ContentError::MalformedIndex)
    }
}

/// The projects described by the objects, in their order. An object that
/// does not describe a project, or an id given twice, makes the index
/// malformed.
pub fn projects_from_objects(objs: &Vec<json::JsonValue>) -> (r: Result<Vec<ProjectEntry>, ContentError>)
    ensures
        projects_read(objs@, r),
{
    let mut projects: Vec<ProjectEntry> = Vec::new();
    let mut k: usize = 0;
    while k < objs.len()
        invariant
            k <= objs@.len(),
            projects@.len() == k,
            forall|j: int| 0 <= j < k ==> project_matches(#[trigger] objs@[j], projects@[j]),
            forall|j: int| 0 <= j < k ==> is_project_object(#[trigger] objs@[j]),
        decreases objs@.len() - k,
    {
        let entry = project_entry(&objs[k])?;
        projects.push(entry);
        k = k + 1;
    }
    assert(forall|i: int| 0 <= i < projects@.len() ==> #[trigger] projects@[i].id@ == json_string_fields(objs@[i])["id"@]);
    if check_project_ids(&projects) {
        Ok(projects)
    } else {
        assert(!object_ids_distinct(objs@)) by {
            let (i, j) = choose|i: int, j: int|
                0 <= i < projects@.len() && 0 <= j < projects@.len() && projects@[i].id@ == projects@[j].id@ && i != j;
            assert(json_string_fields(objs@[i])["id"@] == json_string_fields(objs@[j])["id"@]);
        }
        Err(ContentError::MalformedIndex)
    }
}

/// Reads the posts index: a JSON object whose array `posts` lists the
/// entries. Text that is not JSON, an entry without a required field or a
/// nameless tag, or a repeated id makes it malformed; so does a run of more
/// than `MAX_DIGIT_RUN` digits, which the parser is not handed.
pub fn load_post_index(text: &str) -> (r: Result<Vec<PostEntry>, ContentError>)
    ensures
        !digit_runs_bounded(text.spec_bytes()) ==> r == Err::<Vec<PostEntry>, ContentError>(
            ContentError::MalformedIndex,
        ),
        digit_runs_bounded(text.spec_bytes()) ==> match json_document(text@) {
            None => r == Err::<Vec<PostEntry>, ContentError>(ContentError::MalformedIndex),
            Some(doc) => posts_read(json_members(doc, "posts"@), r),
        },
{
    if !check_digit_runs(text) {
        return Err(ContentError::MalformedIndex);
    }
    match parse_json(text) {
        Ok(doc) => posts_from_objects(&array_field(&doc, "posts")),
        Err(_) => Err(ContentError::MalformedIndex),
    }
}

/// Reads the projects index: a JSON object whose array `projects` lists the
/// entries. Text that is not JSON, an entry without a required field, or a
/// repeated id makes it malformed; so does a run of more than
/// `MAX_DIGIT_RUN` digits, which the parser is not handed.
pub fn load_project_index(text: &str) -> (r: Result<Vec<ProjectEntry>, ContentError>)
    ensures
        !digit_runs_bounded(text.spec_bytes()) ==> r == Err::<Vec<ProjectEntry>, ContentError>(
            ContentError::MalformedIndex,
        ),
        digit_runs_bounded(text.spec_bytes()) ==> match json_document(text@) {
            None => r == Err::<Vec<ProjectEntry>, ContentError>(ContentError::MalformedIndex),
            Some(doc) => projects_read(json_members(doc, "projects"@), r),
        },
{
    if !check_digit_runs(text) {
        return Err(ContentError::MalformedIndex);
    }
    match parse_json(text) {
        Ok(doc) => projects_from_objects(&array_field(&doc, "projects")),
        Err(_) => Err(ContentError::MalformedIndex),
    }
}

/// A posts document with no overlong run of digits, whose objects all
/// describe posts with distinct ids, loads in full: one post per object, in
/// the document's order, each holding its object's fields and tag names.
pub proof fn lemma_well_formed_posts_load(
    text: Seq<char>,
    bytes: Seq<u8>,
    doc: json::JsonValue,
    r: Result<Vec<PostEntry>, ContentError>,
)
    requires
        digit_runs_bounded(bytes),
        json_document(text) == Some(doc),
        forall|k: int|
            0 <= k < json_members(doc, "posts"@).len() ==> is_post_object(
                #[trigger] json_members(doc, "posts"@)[k],
            ),
        object_ids_distinct(json_members(doc, "posts"@)),
        digit_runs_bounded(bytes) ==> match json_document(text) {
            None => r == Err::<Vec<PostEntry>, ContentError>(ContentError::MalformedIndex),
            Some(d) => posts_read(json_members(d, "posts"@), r),
        },
    ensures
        r is Ok,
        r->Ok_0@.len() == json_members(doc, "posts"@).len(),
        forall|k: int|
            0 <= k < r->Ok_0@.len() ==> post_matches(json_members(doc, "posts"@)[k], #[trigger] r->Ok_0@[k]),
{
}

} // verus!
