//! Where the images of cards are kept on disk, and the errors of the stores.
use vstd::prelude::*;
use crate::card::{uuid_text, uuid_to_string, Card};
use crate::text::{push_str, to_owned_string};

verus! {

/// The images of a card: its front, and its back for a card with two faces.
pub struct Images {
    pub front: Vec<u8>,
    pub back: Option<Vec<u8>>,
}

/// An image could not be read.
#[derive(Clone, Debug, PartialEq)]
pub struct ImageRetrievalError {
    message: String,
}

impl ImageRetrievalError {
    pub closed spec fn spec_message(&self) -> Seq<char> {
        self.message@
    }

    pub fn new(message: String) -> (r: ImageRetrievalError)
        ensures
            r.spec_message() == message@,
    {
        ImageRetrievalError { message }
    }

    pub fn message(&self) -> (r: &str)
        ensures
            r@ == self.spec_message(),
    {
        self.message.as_str()
    }

    /// The error as it is displayed.
    pub fn to_string(&self) -> (r: String)
        ensures
            r@ == "Error Retrieving Image"@,
    {
        to_owned_string("Error Retrieving Image")
    }
}

/// A cache operation failed.
#[derive(Clone, Debug, PartialEq)]
pub struct CacheError {
    message: String,
}

impl CacheError {
    pub closed spec fn spec_message(&self) -> Seq<char> {
        self.message@
    }

    pub fn new(message: String) -> (r: CacheError)
        ensures
            r.spec_message() == message@,
    {
        CacheError { message }
    }

    pub fn message(&self) -> (r: &str)
        ensures
            r@ == self.spec_message(),
    {
        self.message.as_str()
    }

    /// The error as it is displayed.
    pub fn to_string(&self) -> (r: String)
        ensures
            r@ == "Error in cache operation"@,
    {
        to_owned_string("Error in cache operation")
    }
}

/// A message could not be sent.
#[derive(Clone, Debug, PartialEq)]
pub struct MessageInterationError {
    message: String,
}

impl MessageInterationError {
    pub closed spec fn spec_message(&self) -> Seq<char> {
        self.message@
    }

    pub fn new(message: String) -> (r: MessageInterationError)
        ensures
            r.spec_message() == message@,
    {
        MessageInterationError { message }
    }

    pub fn message(&self) -> (r: &str)
        ensures
            r@ == self.spec_message(),
    {
        self.message.as_str()
    }

    /// The error as it is displayed.
    pub fn to_string(&self) -> (r: String)
        ensures
            r@ == "An error occurred while processing a message"@,
    {
        to_owned_string("An error occurred while processing a message")
    }
}

/// The image store on disk: card images in `BASE/images/`, illustrations
/// in `BASE/illustrations/`, each file named by its id with `.png`.
pub struct FileSystem {
    image_dir: String,
    illustration_dir: String,
}

impl FileSystem {
    pub closed spec fn spec_image_dir(&self) -> Seq<char> {
        self.image_dir@
    }

    pub closed spec fn spec_illustration_dir(&self) -> Seq<char> {
        self.illustration_dir@
    }

    /// The store rooted at `base_dir`.
    pub fn new(base_dir: &str) -> (r: FileSystem)
        ensures
            r.spec_image_dir() == base_dir@ + "/images/"@,
            r.spec_illustration_dir() == base_dir@ + "/illustrations/"@,
    {
        let mut image_dir = to_owned_string(base_dir);
        push_str(&mut image_dir, "/images/");
        let mut illustration_dir = to_owned_string(base_dir);
        push_str(&mut illustration_dir, "/illustrations/");
        FileSystem { image_dir, illustration_dir }
    }

    /// The file of the card's image.
    pub fn image_path(&self, card: &Card) -> (r: String)
        ensures
            r@ == self.spec_image_dir() + uuid_text(card.front_image_id) + ".png"@,
    {
        let mut s = self.image_dir.clone();
        let id = uuid_to_string(*card.image_id());
        push_str(&mut s, id.as_str());
        push_str(&mut s, ".png");
        s
    }

    /// The file of the card's illustration; an error for a card without one.
    pub fn illustration_path(&self, card: &Card) -> (r: Result<String, ImageRetrievalError>)
        ensures
            match card.front_illustration_id {
                Some(id) => r matches Ok(p) && p@ == self.spec_illustration_dir() + uuid_text(id)
                    + ".png"@,
                None => r matches Err(e) && e.spec_message() == "Card had no illustration id"@,
            },
    {
        match card.front_illustration_id() {
            None => Err(ImageRetrievalError::new(to_owned_string("Card had no illustration id"))),
            Some(id) => {
                let mut s = self.illustration_dir.clone();
                let text = uuid_to_string(*id);
                push_str(&mut s, text.as_str());
                push_str(&mut s, ".png");
                Ok(s)
            },
        }
    }
}

/// The error when the card's image cannot be read.
pub fn missing_image_error(card: &Card) -> (r: ImageRetrievalError)
    ensures
        r.spec_message() == "No front image found for "@ + card.front_name@,
{
    let mut s = to_owned_string("No front image found for ");
    push_str(&mut s, card.front_name.as_str());
    ImageRetrievalError::new(s)
}

/// The error when the card's illustration cannot be read.
pub fn missing_illustration_error(card: &Card) -> (r: ImageRetrievalError)
    ensures
        r.spec_message() == "No illustration found for "@ + card.front_name@,
{
    let mut s = to_owned_string("No illustration found for ");
    push_str(&mut s, card.front_name.as_str());
    ImageRetrievalError::new(s)
}

/// The image store rooted at `base_dir`.
pub fn init_image_store(base_dir: &str) -> (r: FileSystem)
    ensures
        r.spec_image_dir() == base_dir@ + "/images/"@,
        r.spec_illustration_dir() == base_dir@ + "/illustrations/"@,
{
    FileSystem::new(base_dir)
}

} // verus!
