use vstd::prelude::*;

verus! {

/// Everything that can stop the assembly of a post or of the collection.
#[derive(Debug, Clone, Copy, PartialEq, Eq, Structural)]
pub enum PostError {
    /// The content root could not be listed.
    ContentRootUnreadable,
    /// The type of an entry under the content root could not be determined.
    EntryMetadataUnavailable,
    /// A post's content file is missing or unreadable.
    ContentFileUnreadable,
    /// The content file does not open with a delimited metadata block.
    FrontMatterMissing,
    /// The metadata block does not decode into the required fields.
    FrontMatterMalformed,
}

/// The description of each error.
pub open spec fn message_of(e: PostError) -> Seq<char> {
    match e {
        PostError::ContentRootUnreadable => "cannot read blog directory"@,
        PostError::EntryMetadataUnavailable => "cannot read blog entry"@,
        PostError::ContentFileUnreadable => "cannot read blog md"@,
        PostError::FrontMatterMissing => "front matter missing"@,
        PostError::FrontMatterMalformed => "cannot parse front matter"@,
    }
}

impl PostError {
    /// A short human-readable description of the error.
    pub fn message(&self) -> (r: String)
        ensures
            r@ == message_of(*self),
    {
        match self {
            PostError::ContentRootUnreadable => {
                proof {
                    reveal_strlit("cannot read blog directory");
                }
                String::from_str("cannot read blog directory")
            },
            PostError::EntryMetadataUnavailable => {
                proof {
                    reveal_strlit("cannot read blog entry");
                }
                String::from_str("cannot read blog entry")
            },
            PostError::ContentFileUnreadable => {
                proof {
                    reveal_strlit("cannot read blog md");
                }
                String::from_str("cannot read blog md")
            },
            PostError::FrontMatterMissing => {
                proof {
                    reveal_strlit("front matter missing");
                }
                String::from_str("front matter missing")
            },
            PostError::FrontMatterMalformed => {
                proof {
                    reveal_strlit("cannot parse front matter");
                }
                String::from_str("cannot parse front matter")
            },
        }
    }
}

} // verus!
