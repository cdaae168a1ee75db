//! Decoded reference images, memoized by a stable name.  Decoding
//! happens at most once per distinct name for the process lifetime;
//! the cache is append-only, and a failed decode is not cached.

use vstd::prelude::*;

use crate::error::SrPlotError;
use crate::text::str_eq;

verus! {

/// An immutable decoded reference pattern: an RGBA raster, row-major,
/// four bytes per pixel.
#[derive(Debug)]
pub struct Template {
    pub width: u32,
    pub height: u32,
    pub pixels: Vec<u8>,
}

impl View for Template {
    type V = (nat, nat, Seq<u8>);

    open spec fn view(&self) -> (nat, nat, Seq<u8>) {
        (self.width as nat, self.height as nat, self.pixels@)
    }
}

impl Template {
    /// The buffer holds exactly four bytes for every pixel.
    pub open spec fn wf(self) -> bool {
        self.pixels@.len() == 4 * self.width * self.height
    }
}

impl Clone for Template {
    fn clone(&self) -> (r: Self)
        ensures
            r@ == self@,
    {
        Template { width: self.width, height: self.height, pixels: clone_bytes(&self.pixels) }
    }
}

fn clone_bytes(v: &Vec<u8>) -> (r: Vec<u8>)
    ensures
        r@ == v@,
{
    let mut r: Vec<u8> = Vec::new();
    let n = v.len();
    for i in 0..n
        invariant
            n == v.len(),
            r@ == v@.subrange(0, i as int),
    {
        r.push(v[i]);
        proof {
            assert(r@ =~= v@.subrange(0, i as int + 1));
        }
    }
    proof {
        assert(r@ =~= v@);
    }
    r
}

/// What the image codec decodes a byte buffer to: RGBA dimensions and
/// pixel bytes, or nothing when the bytes are not a valid still image.
/// A function of the bytes alone.
pub uninterp spec fn decoded_rgba(bytes: Seq<u8>) -> Option<(nat, nat, Seq<u8>)>;

/// Relies on `image::load_from_memory` followed by
/// `DynamicImage::to_rgba8`: the decode is a function of the bytes
/// alone, and a decoded RGBA buffer holds exactly four bytes per pixel
/// (`ImageBuffer` keeps `width * height * channels` samples).
#[verifier::external_body]
fn decode_rgba(bytes: &[u8]) -> (r: Option<(u32, u32, Vec<u8>)>)
    ensures
        r is Some <==> decoded_rgba(bytes@) is Some,
        r matches Some(t) ==> {
            &&& decoded_rgba(bytes@) == Some((t.0 as nat, t.1 as nat, t.2@))
            &&& t.2@.len() == 4 * t.0 * t.1
        },
{
    match image::load_from_memory(bytes) {
        Ok(img) => {
            let rgba = img.to_rgba8();
            let (w, h) = rgba.dimensions();
            Some((w, h, rgba.into_raw()))
        },
        Err(_) => None,
    }
}

/// Append-only store of decoded templates keyed by name, with a count
/// of how many times the decoder actually ran.
pub struct TemplateCache {
    entries: Vec<(String, Template)>,
    decode_calls: u64,
}

impl TemplateCache {
    /// Names are unique and every stored template is a well-formed
    /// RGBA raster.
    pub closed spec fn wf(self) -> bool {
        &&& forall|i: int, j: int|
            0 <= i < j < self.entries@.len() ==> (#[trigger] self.entries@[i].0@) != (
            #[trigger] self.entries@[j].0@)
        &&& forall|i: int| 0 <= i < self.entries@.len() ==> (#[trigger] self.entries@[i].1).wf()
    }

    pub closed spec fn has_name(self, name: Seq<char>) -> bool {
        exists|i: int| 0 <= i < self.entries@.len() && (#[trigger] self.entries@[i].0@) == name
    }

    /// The view of the template stored under a name.
    pub closed spec fn spec_get(self, name: Seq<char>) -> (nat, nat, Seq<u8>) {
        let i = choose|i: int|
            0 <= i < self.entries@.len() && (#[trigger] self.entries@[i].0@) == name;
        self.entries@[i].1@
    }

    pub closed spec fn spec_decode_calls(self) -> nat {
        self.decode_calls as nat
    }

    pub fn new() -> (r: TemplateCache)
        ensures
            r.wf(),
            r.spec_decode_calls() == 0,
            forall|n: Seq<char>| !r.has_name(n),
    {
        TemplateCache { entries: Vec::new(), decode_calls: 0 }
    }

    /// How many times template bytes were actually decoded.
    pub fn decode_calls(&self) -> (r: u64)
        ensures
            r == self.spec_decode_calls(),
    {
        self.decode_calls
    }

    /// Returns the template stored under `name`, decoding `raw` only
    /// when the name was never decoded before.  Idempotent: a second
    /// lookup by the same name returns the identical decoded template
    /// and runs no decode.  A failed decode is reported and not cached.
    pub fn get_or_decode(&mut self, name: &str, raw: &[u8]) -> (r: Result<
        Template,
        SrPlotError,
    >)
        requires
            old(self).wf(),
            old(self).spec_decode_calls() < u64::MAX,
        ensures
            final(self).wf(),
            old(self).has_name(name@) ==> {
                &&& *final(self) == *old(self)
                &&& r matches Ok(t) && t@ == old(self).spec_get(name@)
            },
            !old(self).has_name(name@) && decoded_rgba(raw@) is Some ==> {
                &&& r matches Ok(t) && Some((t.width as nat, t.height as nat, t.pixels@))
                    == decoded_rgba(raw@)
                &&& final(self).has_name(name@)
                &&& Some(final(self).spec_get(name@)) == decoded_rgba(raw@)
                &&& final(self).spec_decode_calls() == old(self).spec_decode_calls() + 1
            },
            !old(self).has_name(name@) && decoded_rgba(raw@) is None ==> {
                &&& (r matches Err(e) && e matches SrPlotError::ImageProcessing(_))
                &&& final(self).spec_decode_calls() == old(self).spec_decode_calls() + 1
            },
            // Append-only: every cached template survives unchanged.
            forall|m: Seq<char>| old(self).has_name(m) ==> #[trigger] final(self).has_name(m),
            forall|m: Seq<char>|
                old(self).has_name(m) && #[trigger] final(self).has_name(m)
                    ==> final(self).spec_get(m) == old(self).spec_get(m),
            forall|m: Seq<char>|
                #[trigger] final(self).has_name(m) ==> old(self).has_name(m) || m == name@,
    {
        let n = self.entries.len();
        for i in 0..n
            invariant
                n == self.entries@.len(),
                old(self).wf(),
                *self == *old(self),
                forall|k: int| 0 <= k < i ==> (#[trigger] self.entries@[k].0@) != name@,
        {
            if str_eq(self.entries[i].0.as_str(), name) {
                proof {
                    let j = choose|j: int|
                        0 <= j < self.entries@.len() && (#[trigger] self.entries@[j].0@)
                            == name@;
                    assert(self.entries@[i as int].0@ == name@);
                    assert(j == i);
                }
                return Ok(self.entries[i].1.clone());
            }
        }
        assert(!old(self).has_name(name@));
        self.decode_calls = self.decode_calls + 1;
        match decode_rgba(raw) {
            Some((width, height, pixels)) => {
                let template = Template { width, height, pixels };
                let copy = template.clone();
                self.entries.push((name.to_owned(), template));
                proof {
                    let len = self.entries@.len() as int;
                    assert(self.entries@[len - 1].0@ == name@);
                    assert(forall|k: int|
                        0 <= k < len - 1 ==> self.entries@[k] == old(self).entries@[k]);
                    assert(self.has_name(name@));
                    let j = choose|j: int|
                        0 <= j < self.entries@.len() && (#[trigger] self.entries@[j].0@)
                            == name@;
                    assert(j == len - 1);
                    assert_forall_preserved(*old(self), *self, name@);
                }
                Ok(copy)
            },
            None => {
                proof {
                    assert(self.entries@ == old(self).entries@);
                    assert_names_stable(*old(self), *self);
                }
                Err(
                    SrPlotError::ImageProcessing(
                        "template bytes did not decode to an image".to_owned(),
                    ),
                )
            },
        }
    }
}

/// After appending one fresh name, every previously cached name still
/// resolves to the same template, and no name besides the fresh one
/// appeared.
proof fn assert_forall_preserved(pre: TemplateCache, post: TemplateCache, fresh: Seq<char>)
    requires
        pre.wf(),
        post.entries@.len() == pre.entries@.len() + 1,
        forall|k: int| 0 <= k < pre.entries@.len() ==> post.entries@[k] == pre.entries@[k],
        post.entries@[pre.entries@.len() as int].0@ == fresh,
        post.entries@[pre.entries@.len() as int].1.wf(),
        !pre.has_name(fresh),
    ensures
        post.wf(),
        forall|m: Seq<char>|
            pre.has_name(m) ==> #[trigger] post.has_name(m) && post.spec_get(m) == pre.spec_get(
                m,
            ),
        forall|m: Seq<char>| #[trigger] post.has_name(m) ==> pre.has_name(m) || m == fresh,
        post.has_name(fresh),
        post.spec_get(fresh) == post.entries@[pre.entries@.len() as int].1@,
{
    let len = pre.entries@.len() as int;
    assert forall|a: int, b: int|
        0 <= a < b < post.entries@.len() implies (#[trigger] post.entries@[a].0@) != (
    #[trigger] post.entries@[b].0@) by {
        if b < len {
            assert(pre.entries@[a].0@ != pre.entries@[b].0@);
        } else {
            assert(post.entries@[b].0@ == fresh);
            if post.entries@[a].0@ == fresh {
                assert(pre.entries@[a].0@ == fresh);
                assert(pre.has_name(fresh));
            }
        }
    }
    assert forall|a: int| 0 <= a < post.entries@.len() implies (
    #[trigger] post.entries@[a].1).wf() by {
        if a < len {
            assert(pre.entries@[a].1.wf());
        }
    }
    assert forall|m: Seq<char>| pre.has_name(m) implies #[trigger] post.has_name(m)
        && post.spec_get(m) == pre.spec_get(m) by {
        let i = choose|i: int| 0 <= i < len && (#[trigger] pre.entries@[i].0@) == m;
        assert(post.entries@[i].0@ == m);
        assert(post.has_name(m));
        let j = choose|j: int|
            0 <= j < post.entries@.len() && (#[trigger] post.entries@[j].0@) == m;
        if j == len {
            assert(pre.entries@[i].0@ == fresh);
            assert(false);
        }
        assert(pre.entries@[j].0@ == m);
        let i2 = choose|i2: int| 0 <= i2 < len && (#[trigger] pre.entries@[i2].0@) == m;
        if i2 != j {
            assert(pre.entries@[i2].0@ == pre.entries@[j].0@);
            assert(false);
        }
    }
    assert forall|m: Seq<char>| #[trigger] post.has_name(m) implies pre.has_name(m) || m
        == fresh by {
        let j = choose|j: int|
            0 <= j < post.entries@.len() && (#[trigger] post.entries@[j].0@) == m;
        if j < len {
            assert(pre.entries@[j].0@ == m);
        }
    }
    assert(post.has_name(fresh));
    let j = choose|j: int|
        0 <= j < post.entries@.len() && (#[trigger] post.entries@[j].0@) == fresh;
    if j < len {
        assert(pre.entries@[j].0@ == fresh);
        assert(false);
    }
}

/// A cache whose entry vector did not change resolves every name as
/// before.
proof fn assert_names_stable(pre: TemplateCache, post: TemplateCache)
    requires
        pre.entries@ == post.entries@,
    ensures
        forall|m: Seq<char>| pre.has_name(m) <==> #[trigger] post.has_name(m),
        forall|m: Seq<char>| #[trigger] post.has_name(m) ==> post.spec_get(m) == pre.spec_get(m),
        pre.wf() ==> post.wf(),
{
}

} // verus!
