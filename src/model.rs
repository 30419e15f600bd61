//! Records exchanged with the image store and the request layer.
use vstd::prelude::*;

verus! {

/// A stored image as the store returns it.
pub struct Image {
    pub id: i64,
    pub title: String,
    pub artist: String,
    /// The image prefers a dark background.
    pub dark: bool,
    /// The full image, as stored.
    pub data: Vec<u8>,
}

/// What a gallery listing shows of an image.
pub struct ImageDetail {
    pub id: i64,
    pub title: String,
    pub artist: String,
}

/// Query of a request that queues an image.
#[derive(Clone, Copy, Debug, PartialEq, Eq, Structural)]
pub struct UpdateNextParams {
    pub id: i64,
}

/// Query with which a frame registers itself.
pub struct DeviceParams {
    pub name: String,
}

impl Image {
    /// The listing entry of this image.
    pub fn detail(&self) -> (r: ImageDetail)
        ensures
            r.id == self.id,
            r.title@ == self.title@,
            r.artist@ == self.artist@,
    {
        ImageDetail { id: self.id, title: self.title.clone(), artist: self.artist.clone() }
    }
}

} // verus!
