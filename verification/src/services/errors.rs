//! Errors of image processing and of storage access, with the HTTP status
//! each one is answered with and the message it reads.

use vstd::prelude::*;
use crate::text::concat2;

verus! {

/// Why processing an image failed.
#[derive(Debug)]
pub enum ImageProcessingError {
    DecodeError(String),
    EncodeError(String),
    NotFound(String),
    InternalError(String),
}

/// Why fetching an object from storage failed.
#[derive(Debug)]
pub enum StorageError {
    NotFound(String),
    IoError(String),
}

/// The abstract value of an [`ImageProcessingError`].
pub enum ProcessingFault {
    Decode(Seq<char>),
    Encode(Seq<char>),
    NotFound(Seq<char>),
    Internal(Seq<char>),
}

/// The abstract value of a [`StorageError`].
pub enum StorageFault {
    NotFound(Seq<char>),
    Io(Seq<char>),
}

impl View for ImageProcessingError {
    type V = ProcessingFault;

    open spec fn view(&self) -> ProcessingFault {
        match self {
            ImageProcessingError::DecodeError(m) => ProcessingFault::Decode(m@),
            ImageProcessingError::EncodeError(m) => ProcessingFault::Encode(m@),
            ImageProcessingError::NotFound(m) => ProcessingFault::NotFound(m@),
            ImageProcessingError::InternalError(m) => ProcessingFault::Internal(m@),
        }
    }
}

impl View for StorageError {
    type V = StorageFault;

    open spec fn view(&self) -> StorageFault {
        match self {
            StorageError::NotFound(m) => StorageFault::NotFound(m@),
            StorageError::IoError(m) => StorageFault::Io(m@),
        }
    }
}

/// The HTTP status a processing failure is answered with.
pub open spec fn processing_status(f: ProcessingFault) -> u16 {
    match f {
        ProcessingFault::NotFound(_) => 404,
        ProcessingFault::Decode(_) => 400,
        _ => 500,
    }
}

/// The HTTP status a storage failure is answered with.
pub open spec fn storage_status(f: StorageFault) -> u16 {
    match f {
        StorageFault::NotFound(_) => 404,
        StorageFault::Io(_) => 500,
    }
}

/// The human-readable message of a processing failure.
pub open spec fn processing_message(f: ProcessingFault) -> Seq<char> {
    match f {
        ProcessingFault::Decode(m) => "Failed to decode image: "@ + m,
        ProcessingFault::Encode(m) => "Failed to encode image: "@ + m,
        ProcessingFault::NotFound(m) => "Image not found: "@ + m,
        ProcessingFault::Internal(m) => "Internal processing error: "@ + m,
    }
}

/// The human-readable message of a storage failure.
pub open spec fn storage_message(f: StorageFault) -> Seq<char> {
    match f {
        StorageFault::NotFound(m) => "File not found: "@ + m,
        StorageFault::Io(m) => "IO Error: "@ + m,
    }
}

/// The processing failure that a storage failure becomes: a missing object
/// stays "not found" with the same detail; anything else is an internal
/// error that quotes the storage message.
pub open spec fn fault_from_storage(f: StorageFault) -> ProcessingFault {
    match f {
        StorageFault::NotFound(m) => ProcessingFault::NotFound(m),
        StorageFault::Io(_) => ProcessingFault::Internal("Storage error: "@ + storage_message(f)),
    }
}

impl ImageProcessingError {
    /// The HTTP status code of this failure: 404 when the image is missing,
    /// 400 when it cannot be decoded, 500 otherwise.
    pub fn status_code(&self) -> (s: u16)
        ensures
            s == processing_status(self@),
    {
        match self {
            ImageProcessingError::NotFound(_) => 404,
            ImageProcessingError::DecodeError(_) => 400,
            _ => 500,
        }
    }

    /// The message this failure reads.
    pub fn message(&self) -> (m: String)
        ensures
            m@ == processing_message(self@),
    {
        match self {
            ImageProcessingError::DecodeError(m) => concat2("Failed to decode image: ", m.as_str()),
            ImageProcessingError::EncodeError(m) => concat2("Failed to encode image: ", m.as_str()),
            ImageProcessingError::NotFound(m) => concat2("Image not found: ", m.as_str()),
            ImageProcessingError::InternalError(m) => concat2("Internal processing error: ", m.as_str()),
        }
    }

    /// The processing failure a storage failure is reported as.
    pub fn from_storage(e: StorageError) -> (r: ImageProcessingError)
        ensures
            r@ == fault_from_storage(e@),
    {
        match e {
            StorageError::NotFound(m) => ImageProcessingError::NotFound(m),
            StorageError::IoError(_) => {
                let msg = e.message();
                ImageProcessingError::InternalError(concat2("Storage error: ", msg.as_str()))
            }
        }
    }
}

impl StorageError {
    /// The HTTP status code of this failure: 404 when the object is missing,
    /// 500 otherwise.
    pub fn status_code(&self) -> (s: u16)
        ensures
            s == storage_status(self@),
    {
        match self {
            StorageError::NotFound(_) => 404,
            StorageError::IoError(_) => 500,
        }
    }

    /// The message this failure reads.
    pub fn message(&self) -> (m: String)
        ensures
            m@ == storage_message(self@),
    {
        match self {
            StorageError::NotFound(m) => concat2("File not found: ", m.as_str()),
            StorageError::IoError(m) => concat2("IO Error: ", m.as_str()),
        }
    }
}

/// A storage failure keeps its HTTP status once it is reported as a
/// processing failure: a missing object is still answered 404, any other
/// storage failure 500.
pub proof fn lemma_storage_status_preserved(f: StorageFault)
    ensures
        processing_status(fault_from_storage(f)) == storage_status(f),
{
}

} // verus!
