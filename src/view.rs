use vstd::prelude::*;

use crate::config;
use crate::config::{has_stem, photo_slug};
use crate::error::BuildError;
use crate::markdown::{markdown_html, markdown_opt, render_markdown};
use crate::slug::{slug_of, slugify_text};

verus! {

/// The render-ready view of an album.
#[derive(Debug)]
pub struct Album {
    /// The manifest the view was built from.
    pub inner: config::Album,
    pub javascript: bool,
    pub title: String,
    pub slug: String,
    /// The album description rendered to HTML.
    pub description: String,
    pub photos: Vec<Photo>,
}

/// The render-ready view of one photo, with its navigation links.
#[derive(Debug)]
pub struct Photo {
    pub javascript: bool,
    /// Position of the photo in the album.
    pub index: usize,
    /// The slugs of all photos of the album, in order.
    pub slugs: Vec<String>,
    pub slug: String,
    pub prev_slug: Option<String>,
    pub next_slug: Option<String>,
    /// The album's title.
    pub title: String,
    /// The photo description rendered to HTML.
    pub description: Option<String>,
    pub name: String,
    pub thumb_name: String,
}

/// The prefix of a thumbnail's file name.
pub open spec fn thumb_prefix() -> Seq<char> {
    seq!['t', 'h', 'u', 'm', 'b', '-']
}

/// Whether every photo of the manifest has a usable file stem.
pub open spec fn all_named(photos: Seq<config::Photo>) -> bool {
    forall|i: int| 0 <= i < photos.len() ==> has_stem(#[trigger] photos[i].name@)
}

/// The slugs of the photos, in order.
pub open spec fn slugs_of(photos: Seq<config::Photo>) -> Seq<Seq<char>> {
    Seq::new(photos.len(), |i: int| photo_slug(photos[i].name@))
}

/// No two entries of `s` are equal.
pub open spec fn distinct(s: Seq<Seq<char>>) -> bool {
    forall|i: int, j: int| 0 <= i < j < s.len() ==> s[i] != s[j]
}

impl Photo {
    /// This is the view of the photo at position `i` of album `a`.
    pub open spec fn built_from(self, a: config::Album, i: int) -> bool {
        let ps = a.photos@;
        let p = ps[i];
        &&& self.javascript == a.javascript
        &&& self.index == i
        &&& self.slugs.deep_view() == slugs_of(ps)
        &&& self.slug@ == photo_slug(p.name@)
        &&& self.prev_slug.deep_view() == (if i > 0 {
            Some(photo_slug(ps[i - 1].name@))
        } else {
            None::<Seq<char>>
        })
        &&& self.next_slug.deep_view() == (if i + 1 < ps.len() {
            Some(photo_slug(ps[i + 1].name@))
        } else {
            None::<Seq<char>>
        })
        &&& self.title@ == a.title@
        &&& self.description.deep_view() == markdown_opt(p.desc.deep_view())
        &&& self.name@ == p.name@
        &&& self.thumb_name@ == thumb_prefix() + p.name@
    }
}

impl Album {
    /// This is the view built from manifest `a`.
    pub open spec fn built_from(self, a: config::Album) -> bool {
        &&& self.inner == a
        &&& self.javascript == a.javascript
        &&& self.title@ == a.title@
        &&& self.slug@ == slug_of(a.title@)
        &&& self.description@ == markdown_html(a.desc@)
        &&& self.photos.len() == a.photos.len()
        &&& forall|i: int| 0 <= i < a.photos.len() ==> (#[trigger] self.photos@[i]).built_from(a, i)
    }

    /// Builds the view of an album: slugs, navigation links and rendered
    /// descriptions. Fails when a photo's file name has no stem, or when two
    /// photos have the same slug.
    pub fn try_from(album: config::Album) -> (r: Result<Album, BuildError>)
        ensures
            match r {
                Ok(v) => {
                    &&& all_named(album.photos@)
                    &&& distinct(slugs_of(album.photos@))
                    &&& v.built_from(album)
                    &&& v.photos.len() == album.photos.len()
                    &&& forall|i: int| 0 <= i < v.photos.len() ==> #[trigger] v.photos@[i].index == i
                    &&& forall|i: int|
                        1 <= i < v.photos.len() ==> #[trigger] v.photos@[i].prev_slug == Some(
                            v.photos@[i - 1].slug,
                        )
                    &&& v.photos.len() > 0 ==> v.photos@[0].prev_slug.is_none()
                    &&& forall|i: int|
                        0 <= i < v.photos.len() - 1 ==> #[trigger] v.photos@[i].next_slug == Some(
                            v.photos@[i + 1].slug,
                        )
                    &&& v.photos.len() > 0 ==> v.photos@[v.photos.len() - 1].next_slug.is_none()
                },
                Err(BuildError::InvalidName { name }) => exists|i: int|
                    0 <= i < album.photos.len() && !has_stem(#[trigger] album.photos@[i].name@)
                        && name@ == album.photos@[i].name@,
                Err(BuildError::DuplicateSlug { slug }) => {
                    &&& all_named(album.photos@)
                    &&& !distinct(slugs_of(album.photos@))
                    &&& exists|i: int|
                        0 <= i < album.photos.len() && slug@ == #[trigger] slugs_of(
                            album.photos@,
                        )[i]
                },
                Err(BuildError::AggregatedJobFailure { .. }) => false,
            },
    {
        let n = album.photos.len();
        let mut slugs: Vec<String> = Vec::new();
        let mut i: usize = 0;
        while i < n
            invariant
                n == album.photos.len(),
                i <= n,
                slugs.len() == i,
                forall|j: int| 0 <= j < i ==> has_stem(#[trigger] album.photos@[j].name@),
                forall|j: int|
                    0 <= j < i ==> (#[trigger] slugs@[j])@ == photo_slug(album.photos@[j].name@),
            decreases n - i,
        {
            match album.photos[i].slugify() {
                Ok(s) => slugs.push(s),
                Err(e) => return Err(e),
            }
            i = i + 1;
        }
        assert(slugs.deep_view() =~= slugs_of(album.photos@));
        match find_duplicate(&slugs) {
            Some(j) => {
                let slug = slugs[j].clone();
                assert(slug@ == slugs_of(album.photos@)[j as int]);
                return Err(BuildError::DuplicateSlug { slug });
            },
            None => {},
        }
        let mut photos: Vec<Photo> = Vec::new();
        let mut i: usize = 0;
        while i < n
            invariant
                n == album.photos.len(),
                i <= n,
                slugs.len() == n,
                slugs.deep_view() == slugs_of(album.photos@),
                forall|j: int| 0 <= j < n ==> has_stem(#[trigger] album.photos@[j].name@),
                forall|j: int|
                    0 <= j < n ==> (#[trigger] slugs@[j])@ == photo_slug(album.photos@[j].name@),
                photos.len() == i,
                forall|j: int| 0 <= j < i ==> (#[trigger] photos@[j]).built_from(album, j),
                forall|j: int| 0 <= j < i ==> (#[trigger] photos@[j]).slug == slugs@[j],
                forall|j: int|
                    0 < j < i ==> (#[trigger] photos@[j]).prev_slug == Some(slugs@[j - 1]),
                forall|j: int|
                    0 <= j < i && j + 1 < n ==> (#[trigger] photos@[j]).next_slug == Some(
                        slugs@[j + 1],
                    ),
            decreases n - i,
        {
            let photo = &album.photos[i];
            let prev_slug = if i > 0 {
                Some(slugs[i - 1].clone())
            } else {
                None
            };
            let next_slug = if i + 1 < n {
                Some(slugs[i + 1].clone())
            } else {
                None
            };
            let description = match &photo.desc {
                Some(d) => Some(render_markdown(d.as_str())),
                None => None,
            };
            let mut thumb_name = String::from_str("thumb-");
            proof {
                reveal_strlit("thumb-");
            }
            assert(thumb_name@ =~= thumb_prefix());
            thumb_name.append(photo.name.as_str());
            let v = Photo {
                javascript: album.javascript,
                index: i,
                slugs: copy_strings(&slugs),
                slug: slugs[i].clone(),
                prev_slug,
                next_slug,
                title: album.title.clone(),
                description,
                name: photo.name.clone(),
                thumb_name,
            };
            assert(v.built_from(album, i as int));
            photos.push(v);
            i = i + 1;
        }
        let slug = slugify_text(album.title.as_str());
        let description = render_markdown(album.desc.as_str());
        let v = Album {
            javascript: album.javascript,
            title: album.title.clone(),
            slug,
            description,
            photos,
            inner: album,
        };
        assert forall|i: int| 1 <= i < v.photos.len() implies #[trigger] v.photos@[i].prev_slug
            == Some(v.photos@[i - 1].slug) by {
            assert(v.photos@[i - 1].slug == slugs@[i - 1]);
        }
        assert forall|i: int| 0 <= i < v.photos.len() - 1 implies #[trigger] v.photos@[i].next_slug
            == Some(v.photos@[i + 1].slug) by {
            assert(v.photos@[i + 1].slug == slugs@[i + 1]);
        }
        Ok(v)
    }
}

impl Photo {
    /// The two photo views hold the same values.
    pub open spec fn same_as(self, o: Photo) -> bool {
        &&& self.javascript == o.javascript
        &&& self.index == o.index
        &&& self.slugs.deep_view() == o.slugs.deep_view()
        &&& self.slug@ == o.slug@
        &&& self.prev_slug.deep_view() == o.prev_slug.deep_view()
        &&& self.next_slug.deep_view() == o.next_slug.deep_view()
        &&& self.title@ == o.title@
        &&& self.description.deep_view() == o.description.deep_view()
        &&& self.name@ == o.name@
        &&& self.thumb_name@ == o.thumb_name@
    }
}

impl Album {
    /// The two album views hold the same values.
    pub open spec fn same_as(self, o: Album) -> bool {
        &&& self.javascript == o.javascript
        &&& self.title@ == o.title@
        &&& self.slug@ == o.slug@
        &&& self.description@ == o.description@
        &&& self.photos.len() == o.photos.len()
        &&& forall|i: int| 0 <= i < self.photos.len() ==> (#[trigger] self.photos@[i]).same_as(o.photos@[i])
    }
}

/// Building a view is deterministic: two views built from the same manifest
/// hold the same values, so the pages rendered from them are the same.
pub proof fn lemma_build_deterministic(a: config::Album, v1: Album, v2: Album)
    requires
        v1.built_from(a),
        v2.built_from(a),
    ensures
        v1.same_as(v2),
{
    assert forall|i: int| 0 <= i < v1.photos.len() implies (#[trigger] v1.photos@[i]).same_as(v2.photos@[i]) by {
        assert(v1.photos@[i].built_from(a, i));
        assert(v2.photos@[i].built_from(a, i));
    }
}

/// Finds a position whose string equals one at an earlier position.
fn find_duplicate(v: &Vec<String>) -> (r: Option<usize>)
    ensures
        match r {
            Some(j) => j < v.len() && !distinct(v.deep_view()),
            None => distinct(v.deep_view()),
        },
{
    let n = v.len();
    let mut j: usize = 0;
    while j < n
        invariant
            n == v.len(),
            j <= n,
            forall|a: int, b: int| 0 <= a < b < j ==> v@[a]@ != v@[b]@,
        decreases n - j,
    {
        let mut i: usize = 0;
        while i < j
            invariant
                n == v.len(),
                i <= j < n,
                forall|a: int| 0 <= a < i ==> v@[a]@ != v@[j as int]@,
            decreases j - i,
        {
            if v[i] == v[j] {
                assert(v.deep_view()[i as int] == v.deep_view()[j as int]);
                return Some(j);
            }
            i = i + 1;
        }
        j = j + 1;
    }
    assert forall|a: int, b: int| 0 <= a < b < v.deep_view().len() implies v.deep_view()[a]
        != v.deep_view()[b] by {
        assert(v.deep_view()[a] == v@[a]@);
        assert(v.deep_view()[b] == v@[b]@);
    }
    None
}

/// An element-wise copy of a vector of strings.
fn copy_strings(v: &Vec<String>) -> (r: Vec<String>)
    ensures
        r@ == v@,
{
    let mut r: Vec<String> = Vec::new();
    let mut i: usize = 0;
    while i < v.len()
        invariant
            i <= v.len(),
            r.len() == i,
            forall|j: int| 0 <= j < i ==> r@[j] == v@[j],
        decreases v.len() - i,
    {
        r.push(v[i].clone());
        i = i + 1;
    }
    assert(r@ =~= v@);
    r
}

} // verus!
