//! Preparing the seed records before they are loaded into the database.

use vstd::prelude::*;
use crate::entities::Cat;
use crate::text::{lowercase, to_lowercase};

verus! {

/// The picture of a cat named `name`: its lowercased name under the
/// 256x256 cat pictures.
pub open spec fn cat_picture(name: Seq<char>) -> Seq<char> {
    picture_of_lowercase(lowercase(name))
}

/// The picture of a cat whose lowercased name is `lower`.
pub open spec fn picture_of_lowercase(lower: Seq<char>) -> Seq<char> {
    "/static/pics/cats/256x256/"@ + lower + ".jpg"@
}

/// The path of the picture of a cat whose lowercased name is `lower`.
pub fn picture_path_of(lower: &str) -> (p: String)
    ensures
        p@ == picture_of_lowercase(lower@),
        p@ == "/static/pics/cats/256x256/"@ + lower@ + ".jpg"@,
{
    let mut p = String::from_str("/static/pics/cats/256x256/");
    p.append(lower);
    p.append(".jpg");
    p
}

/// The path of the picture of a cat named `name`.
pub fn cat_picture_path(name: &str) -> (p: String)
    ensures
        p@ == cat_picture(name@),
        p@ == "/static/pics/cats/256x256/"@ + lowercase(name@) + ".jpg"@,
{
    let lower = to_lowercase(name);
    picture_path_of(lower.as_str())
}

/// Gives every cat the picture that its name points to; nothing else
/// changes.
pub fn generate_cats(cats: Vec<Cat>) -> (r: Vec<Cat>)
    ensures
        r@.len() == cats@.len(),
        forall|i: int|
            0 <= i < r@.len() ==> {
                &&& (#[trigger] r@[i]).picture@ == cat_picture(cats@[i].name@)
                &&& r@[i].picture@ == "/static/pics/cats/256x256/"@ + lowercase(cats@[i].name@) + ".jpg"@
                &&& r@[i].id == cats@[i].id
                &&& r@[i].name == cats@[i].name
                &&& r@[i].breed == cats@[i].breed
                &&& r@[i].age == cats@[i].age
                &&& r@[i].weight == cats@[i].weight
            },
{
    let ghost orig = cats@;
    let mut cats = cats;
    let n = cats.len();
    let mut i: usize = 0;
    while i < n
        invariant
            n == orig.len(),
            cats@.len() == n,
            i <= n,
            forall|j: int|
                0 <= j < n ==> {
                    &&& (#[trigger] cats@[j]).id == orig[j].id
                    &&& cats@[j].name == orig[j].name
                    &&& cats@[j].breed == orig[j].breed
                    &&& cats@[j].age == orig[j].age
                    &&& cats@[j].weight == orig[j].weight
                },
            forall|j: int| 0 <= j < n && j >= i ==> (#[trigger] cats@[j]).picture == orig[j].picture,
            forall|j: int| 0 <= j < i ==> (#[trigger] cats@[j]).picture@ == cat_picture(orig[j].name@),
        decreases n - i,
    {
        let picture = cat_picture_path(cats[i].name.as_str());
        cats[i].picture = picture;
        i = i + 1;
    }
    cats
}

/// A cat's picture is named by its whole lowercased name, nothing cut or
/// added: the path is the picture folder, the lowercased name and `.jpg`.
pub proof fn lemma_cat_picture_whole_name(name: Seq<char>)
    ensures
        cat_picture(name) == "/static/pics/cats/256x256/"@ + lowercase(name) + ".jpg"@,
        cat_picture(name).subrange(26, 26 + lowercase(name).len() as int) == lowercase(name),
{
    reveal_strlit("/static/pics/cats/256x256/");
    let p = "/static/pics/cats/256x256/"@;
    assert(p.len() == 26);
    assert((p + lowercase(name) + ".jpg"@).subrange(26, 26 + lowercase(name).len() as int) =~= lowercase(name));
}

} // verus!
