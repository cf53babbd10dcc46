//! Posts: the upload form, the stored row, image locations, the photo
//! payload check and the per-session record of viewed posts.

use vstd::prelude::*;
use crate::cities::{CityTable, city_column_spec, json_string, json_string_literal};
use crate::text::{concat3, decimal, push_to_set, u64_to_decimal, views};

verus! {

/// The upload form (sent as JSON).
pub struct UploadForm {
    pub user_id: String,
    pub user_name: String,
    pub photos: Vec<String>,
    pub animal: String,
    pub breed: String,
    pub post_type: String,
    pub price: Option<String>,
    pub age_type: String,
    pub age: String,
    pub sex: String,
    pub phone: String,
    pub city: String,
    pub description: String,
}

/// A post as listed on the pages.
pub struct PostStruct {
    pub animal: String,
    pub breed: String,
    pub post_type: String,
    pub price: String,
    pub age_years: String,
    pub age_months: String,
    pub gender: String,
    pub phone: String,
    pub description: String,
}

/// The values stored for a new post, in column order.
pub struct PostRow {
    pub id: String,
    pub user_id: String,
    pub user_name: String,
    pub animal: String,
    pub breed: String,
    pub post_type: String,
    pub price: Option<String>,
    pub age_type: String,
    pub age: String,
    pub sex: String,
    pub phone: String,
    pub city: String,
    pub description: String,
    /// The number of photos, in decimal.
    pub photos: String,
}

/// The row stored for a new post: the form's fields, the city key replaced
/// by its `city` column text, and the photo count.
pub fn post_row(post_id: &String, form: &UploadForm, cities: &CityTable) -> (row: PostRow)
    ensures
        row.id@ == post_id@,
        row.user_id@ == form.user_id@,
        row.user_name@ == form.user_name@,
        row.animal@ == form.animal@,
        row.breed@ == form.breed@,
        row.post_type@ == form.post_type@,
        row.price == form.price,
        row.age_type@ == form.age_type@,
        row.age@ == form.age@,
        row.sex@ == form.sex@,
        row.phone@ == form.phone@,
        row.city@ == city_column_spec(*cities, form.city@),
        row.description@ == form.description@,
        row.photos@ == decimal(form.photos@.len()),
{
    PostRow {
        id: post_id.clone(),
        user_id: form.user_id.clone(),
        user_name: form.user_name.clone(),
        animal: form.animal.clone(),
        breed: form.breed.clone(),
        post_type: form.post_type.clone(),
        price: form.price.clone(),
        age_type: form.age_type.clone(),
        age: form.age.clone(),
        sex: form.sex.clone(),
        phone: form.phone.clone(),
        city: cities.city_column(&form.city),
        description: form.description.clone(),
        photos: u64_to_decimal(form.photos.len() as u64),
    }
}

/// Directory on disk holding a post's images.
pub open spec fn post_image_dir_spec(post_id: Seq<char>) -> Seq<char> {
    "/var/uploads/post-images/"@ + post_id
}

/// The directory on disk holding a post's images.
pub fn post_image_dir(post_id: &String) -> (d: String)
    ensures
        d@ == post_image_dir_spec(post_id@),
{
    let mut d = String::from_str("/var/uploads/post-images/");
    d.append(post_id.as_str());
    d
}

/// The file of the `index`-th photo of a post: `<dir>/<index>.jpg`.
pub fn post_image_file(post_id: &String, index: usize) -> (f: String)
    ensures
        f@ == post_image_dir_spec(post_id@) + "/"@ + decimal(index as nat) + ".jpg"@,
{
    let mut f = post_image_dir(post_id);
    let n = u64_to_decimal(index as u64);
    let tail = concat3("/", n.as_str(), ".jpg");
    f.append(tail.as_str());
    f
}

/// The storage bucket location of a post's images.
pub fn post_images_bucket_uri(post_id: &String) -> (u: String)
    ensures
        u@ == "s3://pender-assets/post-images/"@ + post_id@,
{
    let mut u = String::from_str("s3://pender-assets/post-images/");
    u.append(post_id.as_str());
    u
}

/// The JSON answer to an upload: `{"post_id":<id as a JSON string>}`.
pub fn upload_response_body(post_id: &String) -> (b: String)
    ensures
        b@ == "{\"post_id\":"@ + json_string(post_id@) + "}"@,
{
    let quoted = json_string_literal(post_id.as_str());
    concat3("{\"post_id\":", quoted.as_str(), "}")
}

} // verus!

verus! {

/// A copy of a list of strings.
fn copy_strings(v: &Vec<String>) -> (c: Vec<String>)
    ensures
        views(c@) == views(v@),
{
    let mut c: Vec<String> = Vec::new();
    let mut i: usize = 0;
    while i < v.len()
        invariant
            i <= v.len(),
            views(c@) == views(v@.subrange(0, i as int)),
        decreases v.len() - i,
    {
        let ghost before = c@;
        let s = v[i].clone();
        assert(s@ == v@[i as int]@);
        c.push(s);
        assert(views(c@) =~= views(v@.subrange(0, i + 1))) by {
            assert(views(c@) =~= views(before).push(s@));
            assert(views(v@.subrange(0, i + 1)) =~= views(v@.subrange(0, i as int)).push(v@[i as int]@));
        }
        i = i + 1;
    }
    assert(v@.subrange(0, v.len() as int) =~= v@);
    c
}

/// The posts a session has already viewed (each view of a new post counts
/// once per session).
pub struct ViewedPosts {
    ids: Vec<String>,
}

impl View for ViewedPosts {
    type V = Set<Seq<char>>;

    closed spec fn view(&self) -> Set<Seq<char>> {
        views(self.ids@).to_set()
    }
}

/// Recording a view: the new set of viewed posts, and whether the post was
/// new to the session (and so counts as a view).
pub open spec fn record_view_spec(viewed: Set<Seq<char>>, post_id: Seq<char>) -> (Set<Seq<char>>, bool) {
    (viewed.insert(post_id), !viewed.contains(post_id))
}

impl ViewedPosts {
    #[verifier::type_invariant]
    closed spec fn distinct(self) -> bool {
        views(self.ids@).no_duplicates()
    }

    /// No post viewed yet.
    pub fn new() -> (v: ViewedPosts)
        ensures
            v@ == Set::<Seq<char>>::empty(),
    {
        let v = ViewedPosts { ids: Vec::new() };
        assert(views(v.ids@) =~= Seq::<Seq<char>>::empty());
        assert(v@ =~= Set::<Seq<char>>::empty());
        v
    }

    /// Whether post `post_id` was viewed.
    pub fn contains(&self, post_id: &String) -> (b: bool)
        ensures
            b == self@.contains(post_id@),
    {
        let mut i: usize = 0;
        while i < self.ids.len()
            invariant
                i <= self.ids.len(),
                forall|k: int| 0 <= k < i ==> self.ids@[k]@ != post_id@,
            decreases self.ids.len() - i,
        {
            if self.ids[i] == *post_id {
                assert(views(self.ids@)[i as int] == post_id@);
                return true;
            }
            i = i + 1;
        }
        assert(!views(self.ids@).contains(post_id@)) by {
            if views(self.ids@).contains(post_id@) {
                let k = choose|k: int| 0 <= k < views(self.ids@).len() && views(self.ids@)[k] == post_id@;
                assert(self.ids@[k]@ == post_id@);
            }
        }
        false
    }

    /// Records a view of `post_id`; true when the post was new to the session.
    pub fn record(&mut self, post_id: String) -> (is_new: bool)
        ensures
            (final(self)@, is_new) == record_view_spec(old(self)@, post_id@),
    {
        if self.contains(&post_id) {
            assert(old(self)@.insert(post_id@) =~= old(self)@);
            false
        } else {
            let ghost before = views(self.ids@);
            proof {
                use_type_invariant(&*self);
            }
            let ghost id = post_id@;
            let mut ids = copy_strings(&self.ids);
            ids.push(post_id);
            assert(views(ids@) =~= before.push(id));
            proof {
                push_to_set(before, id);
            }
            *self = ViewedPosts { ids };
            true
        }
    }

    /// The viewed posts from a stored list (as kept in the session); a post
    /// listed twice is kept once.
    pub fn from_ids(ids: Vec<String>) -> (v: ViewedPosts)
        ensures
            v@ == views(ids@).to_set(),
    {
        let mut v = ViewedPosts::new();
        let mut i: usize = 0;
        while i < ids.len()
            invariant
                i <= ids.len(),
                v@ == views(ids@.subrange(0, i as int)).to_set(),
            decreases ids.len() - i,
        {
            let ghost before = views(ids@.subrange(0, i as int));
            v.record(ids[i].clone());
            assert(views(ids@.subrange(0, i + 1)) =~= before.push(ids@[i as int]@));
            proof {
                push_to_set(before, ids@[i as int]@);
            }
            i = i + 1;
        }
        assert(ids@.subrange(0, ids.len() as int) =~= ids@);
        v
    }

    /// The viewed posts as a list without repeats (to keep in the session).
    pub fn to_ids(&self) -> (ids: Vec<String>)
        ensures
            views(ids@).to_set() == self@,
            views(ids@).no_duplicates(),
    {
        proof {
            use_type_invariant(self);
        }
        copy_strings(&self.ids)
    }
}

/// A first view always counts: recording a post the session has not
/// viewed reports it as new, however many other posts were viewed; a post
/// already viewed is not counted again.  Afterwards the viewed posts are
/// the earlier ones and this one, no more and no fewer.
pub proof fn new_view_is_counted(viewed: Set<Seq<char>>, post_id: Seq<char>, other: Seq<char>)
    ensures
        record_view_spec(viewed, post_id).1 <==> !viewed.contains(post_id),
        record_view_spec(viewed, post_id).0.contains(other) <==> (viewed.contains(other) || other == post_id),
{
}

/// A post viewed twice in one session counts once: the second record is
/// not new and changes nothing.
pub proof fn second_view_is_not_counted(viewed: Set<Seq<char>>, post_id: Seq<char>)
    ensures
        ({
            let (after_first, first_new) = record_view_spec(viewed, post_id);
            let (after_second, second_new) = record_view_spec(after_first, post_id);
            &&& !second_new
            &&& after_second == after_first
            &&& after_first.contains(post_id)
        }),
{
    assert(viewed.insert(post_id).insert(post_id) =~= viewed.insert(post_id));
}

} // verus!
