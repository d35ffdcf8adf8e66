//! What the assistant says of an image file. It looks at the file's name
//! only: whether the file is there, and how its name is split, is for the
//! caller to find out.

use vstd::prelude::*;
use vstd::string::StringExecFns;

use crate::text::{lowercase_of, to_lowercase};

verus! {

/// Why an image was not described.
#[derive(Debug, Clone, Copy, PartialEq, Eq, Structural)]
pub enum VisionError {
    /// There is no such file.
    FileMissing,
    /// The file's extension is not that of an image.
    InvalidType,
}

/// What is said to the user of each error.
pub open spec fn error_message(error: VisionError) -> Seq<char> {
    match error {
        VisionError::FileMissing => "File does not exist"@,
        VisionError::InvalidType =>
            "Invalid file type. Please select an image file (jpg, jpeg, png, gif, bmp, webp)"@,
    }
}

impl VisionError {
    /// What is said to the user of this error.
    pub fn message(&self) -> (text: String)
        ensures
            text@ == error_message(*self),
    {
        match self {
            VisionError::FileMissing => String::from_str("File does not exist"),
            VisionError::InvalidType => String::from_str(
                "Invalid file type. Please select an image file (jpg, jpeg, png, gif, bmp, webp)",
            ),
        }
    }
}

/// A lower-cased extension is that of an image.
pub open spec fn image_extension(lowered: Seq<char>) -> bool {
    ||| lowered == "jpg"@
    ||| lowered == "jpeg"@
    ||| lowered == "png"@
    ||| lowered == "gif"@
    ||| lowered == "bmp"@
    ||| lowered == "webp"@
}

/// What is said of the image called `file_name`.
pub open spec fn description_of(file_name: Seq<char>) -> Seq<char> {
    "Mock Description: This appears to be an image file named '"@ + file_name
        + "'. In a production implementation, this would be analyzed by an AI vision model to provide a detailed description of the image contents, including objects, people, scenes, colors, and other visual elements detected in the image."@
}

/// What comes of describing a file: an error if it is not there, or if it
/// has no extension, or one that, lower-cased, is not that of an image;
/// else its description.
pub open spec fn describe(exists: bool, lowered_extension: Option<Seq<char>>, file_name: Seq<char>) -> Result<
    Seq<char>,
    VisionError,
> {
    if !exists {
        Err(VisionError::FileMissing)
    } else if lowered_extension is Some && image_extension(lowered_extension->0) {
        Ok(description_of(file_name))
    } else {
        Err(VisionError::InvalidType)
    }
}

/// The lower-cased form of an extension, if there is one.
pub open spec fn lowered(extension: Option<Seq<char>>) -> Option<Seq<char>> {
    match extension {
        Some(extension) => Some(lowercase_of(extension)),
        None => None,
    }
}

/// A described file as plain character sequences.
pub open spec fn outcome_view(outcome: Result<String, VisionError>) -> Result<
    Seq<char>,
    VisionError,
> {
    match outcome {
        Ok(text) => Ok(text@),
        Err(error) => Err(error),
    }
}

/// Whether the lower-cased extension `lowered` is that of an image.
pub fn is_image_extension(lowered: &str) -> (image: bool)
    ensures
        image == image_extension(lowered@),
{
    let extension = String::from_str(lowered);
    extension == String::from_str("jpg") || extension == String::from_str("jpeg") || extension
        == String::from_str("png") || extension == String::from_str("gif") || extension
        == String::from_str("bmp") || extension == String::from_str("webp")
}

/// Describes the file called `file_name`, given whether it exists and its
/// lower-cased extension.
pub fn describe_known_image(exists: bool, lowered_extension: Option<&str>, file_name: &str) -> (outcome:
    Result<String, VisionError>)
    ensures
        outcome_view(outcome) == describe(
            exists,
            match lowered_extension {
                Some(extension) => Some(extension@),
                None => None,
            },
            file_name@,
        ),
{
    if !exists {
        return Err(VisionError::FileMissing);
    }
    let image = match lowered_extension {
        Some(extension) => is_image_extension(extension),
        None => false,
    };
    if !image {
        return Err(VisionError::InvalidType);
    }
    let mut text = String::from_str("Mock Description: This appears to be an image file named '");
    text.append(file_name);
    text.append(
        "'. In a production implementation, this would be analyzed by an AI vision model to provide a detailed description of the image contents, including objects, people, scenes, colors, and other visual elements detected in the image.",
    );
    Ok(text)
}

/// Describes the file called `file_name`, given whether it exists and its
/// extension as it is written. The extension is read without regard to
/// case.
pub fn describe_image(exists: bool, extension: Option<&str>, file_name: &str) -> (outcome: Result<
    String,
    VisionError,
>)
    ensures
        outcome_view(outcome) == describe(
            exists,
            lowered(
                match extension {
                    Some(extension) => Some(extension@),
                    None => None,
                },
            ),
            file_name@,
        ),
{
    match extension {
        Some(extension) => {
            let lowered_extension = to_lowercase(extension);
            describe_known_image(exists, Some(lowered_extension.as_str()), file_name)
        },
        None => describe_known_image(exists, None, file_name),
    }
}

} // verus!
