//! The errors of serialization.

use quick_xml::Error as XmlError;
use std::string::FromUtf8Error;
use vstd::prelude::*;
use vstd::std_specs::convert::FromSpecImpl;

verus! {

/// An error generated during the XML serialization process.
#[derive(Debug)]
pub enum Error {
    /// The writer could not take an XML event.
    Xml { source: XmlError },
}

impl Error {
    /// A description of the error for people to read.
    pub fn message(&self) -> (text: String)
        ensures
            text@ == "failed to process XML document"@,
    {
        "failed to process XML document".to_owned()
    }
}

impl From<XmlError> for Error {
    fn from(source: XmlError) -> (error: Error) {
        Error::Xml { source }
    }
}

impl FromSpecImpl<XmlError> for Error {
    open spec fn obeys_from_spec() -> bool {
        true
    }

    open spec fn from_spec(source: XmlError) -> Error {
        Error::Xml { source }
    }
}

/// An error from serializing a value into a string.
#[derive(Debug)]
#[non_exhaustive]
pub enum TestError {
    /// The value could not be written as XML.
    XmlStruct(Error),
    /// What was written is not valid UTF-8.
    Utf8(FromUtf8Error),
}

impl TestError {
    /// A description of the error for people to read.
    pub fn message(&self) -> (text: String)
        ensures
            self is XmlStruct ==> text@ == "error in processing XML document"@,
            self is Utf8 ==> text@ == "serialization produced invalid UTF-8"@,
    {
        match self {
            TestError::XmlStruct(_) => "error in processing XML document".to_owned(),
            TestError::Utf8(_) => "serialization produced invalid UTF-8".to_owned(),
        }
    }
}

impl From<Error> for TestError {
    fn from(source: Error) -> (error: TestError) {
        TestError::XmlStruct(source)
    }
}

impl FromSpecImpl<Error> for TestError {
    open spec fn obeys_from_spec() -> bool {
        true
    }

    open spec fn from_spec(source: Error) -> TestError {
        TestError::XmlStruct(source)
    }
}

impl From<FromUtf8Error> for TestError {
    fn from(source: FromUtf8Error) -> (error: TestError) {
        TestError::Utf8(source)
    }
}

impl FromSpecImpl<FromUtf8Error> for TestError {
    open spec fn obeys_from_spec() -> bool {
        true
    }

    open spec fn from_spec(source: FromUtf8Error) -> TestError {
        TestError::Utf8(source)
    }
}

} // verus!
