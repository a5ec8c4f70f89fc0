//! Decoded images, keyed by name. Decoding itself is done by the
//! `image` crate behind a trusted wrapper; everything around it — the
//! store, the success and failure paths, the size bookkeeping — is
//! verified. Uploading pixels to the GPU happens outside this crate.

use vstd::prelude::*;
use crate::store::Store;

verus! {

/// What decoding a byte string yields: `None` when the bytes are not a
/// readable image, otherwise the RGBA pixels (four bytes each, row by
/// row from the top) with the width and height.
pub uninterp spec fn decoded_rgba(bytes: Seq<u8>) -> Option<(Seq<u8>, u32, u32)>;

/// Relies on `image::load_from_memory` (format guessed from the bytes)
/// and `image::DynamicImage::to_rgba8`: both are deterministic in the
/// input bytes, and an RGBA buffer holds exactly `4 * width * height`
/// bytes.
#[verifier::external_body]
fn decode_rgba(bytes: &[u8]) -> (r: Option<(Vec<u8>, u32, u32)>)
    ensures
        match (r, decoded_rgba(bytes@)) {
            (Some(d), Some(s)) => d.0@ == s.0 && d.1 == s.1 && d.2 == s.2 && d.0@.len() == 4
                * s.1 * s.2,
            (None, None) => true,
            _ => false,
        },
{
    match image::load_from_memory(bytes) {
        Ok(img) => {
            let rgba = img.to_rgba8();
            let (width, height) = rgba.dimensions();
            Some((rgba.into_raw(), width, height))
        },
        Err(_) => None,
    }
}

/// One decoded image: its RGBA bytes and its width and height.
#[derive(Debug)]
pub struct Texture {
    pub rgba8: Vec<u8>,
    pub dimensions: (u32, u32),
}

impl Texture {
    /// The pixel buffer holds exactly four bytes per pixel.
    pub open spec fn wf(self) -> bool {
        self.rgba8@.len() == 4 * self.dimensions.0 * self.dimensions.1
    }
}

impl Clone for Texture {
    /// A clone holds the same pixels and dimensions.
    fn clone(&self) -> (r: Self)
        ensures
            r.rgba8@ == self.rgba8@,
            r.dimensions == self.dimensions,
    {
        let mut rgba8: Vec<u8> = Vec::new();
        let mut i: usize = 0;
        while i < self.rgba8.len()
            invariant
                i <= self.rgba8@.len(),
                rgba8@ =~= self.rgba8@.subrange(0, i as int),
            decreases self.rgba8@.len() - i,
        {
            rgba8.push(self.rgba8[i]);
            i = i + 1;
        }
        proof {
            assert(self.rgba8@.subrange(0, self.rgba8@.len() as int) =~= self.rgba8@);
        }
        Texture { rgba8, dimensions: self.dimensions }
    }
}

/// All images decoded so far, by name.
pub struct Textures {
    loaded_textures: Store<Texture>,
}

impl View for Textures {
    type V = Map<Seq<char>, Texture>;

    closed spec fn view(&self) -> Map<Seq<char>, Texture> {
        self.loaded_textures@
    }
}

impl Textures {
    /// An empty texture store.
    pub fn new() -> (t: Textures)
        ensures
            t@ == Map::<Seq<char>, Texture>::empty(),
    {
        Textures { loaded_textures: Store::new() }
    }

    /// Decodes `bytes` and stores the pixels under `file_name`. Returns
    /// `Ok(true)` exactly when the bytes decode; on failure the store
    /// is untouched.
    pub fn load_image(&mut self, file_name: &str, bytes: &[u8]) -> (r: Result<bool, String>)
        ensures
            match decoded_rgba(bytes@) {
                Some(img) => {
                    &&& r == Ok::<bool, String>(true)
                    &&& final(self)@.dom() == old(self)@.dom().insert(file_name@)
                    &&& final(self)@[file_name@].rgba8@ == img.0
                    &&& final(self)@[file_name@].dimensions == (img.1, img.2)
                    &&& forall|k: Seq<char>|
                        old(self)@.dom().contains(k) && k != file_name@
                            ==> #[trigger] final(self)@[k] == old(self)@[k]
                },
                None => {
                    &&& r is Err
                    &&& r->Err_0@ == "Image could not be decoded"@
                    &&& final(self)@ == old(self)@
                },
            },
    {
        match decode_rgba(bytes) {
            Some((rgba8, width, height)) => {
                let texture = Texture { rgba8, dimensions: (width, height) };
                self.loaded_textures.insert(file_name.to_owned(), texture);
                Ok(true)
            },
            None => Err("Image could not be decoded".to_owned()),
        }
    }

    /// Decodes `bytes` and hands back the raw RGBA pixels, as a window
    /// icon wants them; `None` when the bytes do not decode.
    pub fn icon_rgba8(&self, bytes: &[u8]) -> (r: Option<Vec<u8>>)
        ensures
            match (r, decoded_rgba(bytes@)) {
                (Some(p), Some(img)) => p@ == img.0,
                (None, None) => true,
                _ => false,
            },
    {
        match decode_rgba(bytes) {
            Some((rgba8, _width, _height)) => Some(rgba8),
            None => None,
        }
    }

    /// The stored image of `texture_name`: what a GPU texture is made
    /// from. Fails with "Texture not found" exactly when no image of
    /// that name was loaded.
    pub fn get_texture(&mut self, texture_name: &str) -> (r: Result<Texture, String>)
        ensures
            *final(self) == *old(self),
            match r {
                Ok(texture) => old(self)@.dom().contains(texture_name@) && texture.rgba8@ == old(
                    self,
                )@[texture_name@].rgba8@ && texture.dimensions
                    == old(self)@[texture_name@].dimensions,
                Err(e) => !old(self)@.dom().contains(texture_name@) && e@
                    == "Texture not found"@,
            },
    {
        match self.loaded_textures.get(texture_name) {
            Some(texture) => Ok(texture.clone()),
            None => Err("Texture not found".to_owned()),
        }
    }
}

} // verus!
