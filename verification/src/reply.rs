use vstd::prelude::*;
use crate::form::Operation;
use crate::text::{decode_utf8_lossy, utf8_lossy};

verus! {

/// Why a request is refused, with the text that the cause reported where it
/// reported one.
#[derive(Debug, PartialEq)]
pub enum Failure {
    /// No file came with a read or delete request.
    MissingFile,
    /// No file came with a write request.
    MissingData,
    /// The upload could not be stored in a temporary file.
    TempFileCreate(String),
    /// The upload could not be written into its temporary file.
    TempFileWrite(String),
    /// ExifTool ran and reported failure on its error output.
    ToolFailed(Operation, String),
    /// ExifTool could not be started.
    ToolNotStarted(Operation, String),
    /// ExifTool's output file is too small to be an image.
    OutputTooSmall(Operation),
    /// ExifTool's output file could not be read.
    OutputUnreadable(Operation, String),
}

/// The failure of a request that came without a file.
pub open spec fn missing_upload_spec(op: Operation) -> Failure {
    if op == Operation::Write {
        Failure::MissingData
    } else {
        Failure::MissingFile
    }
}

/// Returns the failure of a request that came without a file.
pub fn missing_upload(op: Operation) -> (r: Failure)
    ensures
        r == missing_upload_spec(op),
{
    if op == Operation::Write {
        Failure::MissingData
    } else {
        Failure::MissingFile
    }
}

/// The error code of an operation whose tool run failed.
pub open spec fn operation_code(op: Operation) -> Seq<char> {
    match op {
        Operation::Read => "METADATA_READ_ERROR"@,
        Operation::Write => "METADATA_WRITE_ERROR"@,
        Operation::Delete => "METADATA_DELETE_ERROR"@,
    }
}

fn operation_code_text(op: Operation) -> (r: &'static str)
    ensures
        r@ == operation_code(op),
{
    match op {
        Operation::Read => "METADATA_READ_ERROR",
        Operation::Write => "METADATA_WRITE_ERROR",
        Operation::Delete => "METADATA_DELETE_ERROR",
    }
}

/// `head` followed by `detail`, as a new text.
fn joined(head: &str, detail: &str) -> (r: String)
    ensures
        r@ == head@ + detail@,
{
    let mut s = String::from_str(head);
    s.append(detail);
    s
}

impl Failure {
    /// The HTTP status of the reply.
    pub open spec fn status_spec(self) -> u16 {
        match self {
            Failure::MissingFile | Failure::MissingData => 400,
            _ => 500,
        }
    }

    /// The error text of the reply.
    pub open spec fn message_spec(self) -> Seq<char> {
        match self {
            Failure::MissingFile => "No file uploaded"@,
            Failure::MissingData => "Missing file or metadata"@,
            Failure::TempFileCreate(e) => "Failed to create temp file: "@ + e@,
            Failure::TempFileWrite(e) => "Failed to write file: "@ + e@,
            Failure::ToolFailed(_, e) => "exiftool failed: "@ + e@,
            Failure::ToolNotStarted(_, e) => "Failed to execute exiftool: "@ + e@,
            Failure::OutputTooSmall(_) => "Output file is too small, likely an error occurred"@,
            Failure::OutputUnreadable(_, e) => "Failed to read output file: "@ + e@,
        }
    }

    /// The error code of the reply, if it has one.
    pub open spec fn code_spec(self) -> Option<Seq<char>> {
        match self {
            Failure::MissingFile => Some("MISSING_FILE"@),
            Failure::MissingData => Some("MISSING_DATA"@),
            Failure::TempFileCreate(_) | Failure::TempFileWrite(_) => None,
            Failure::ToolFailed(op, _) => Some(operation_code(op)),
            Failure::ToolNotStarted(op, _) => Some(operation_code(op)),
            Failure::OutputTooSmall(op) => Some(operation_code(op)),
            Failure::OutputUnreadable(op, _) => Some(operation_code(op)),
        }
    }

    /// Returns the HTTP status of the reply: 400 for a request without a
    /// file, 500 otherwise.
    pub fn status(&self) -> (r: u16)
        ensures
            r == self.status_spec(),
    {
        match self {
            Failure::MissingFile | Failure::MissingData => 400,
            _ => 500,
        }
    }

    /// Returns the error text of the reply.
    pub fn message(&self) -> (r: String)
        ensures
            r@ == self.message_spec(),
    {
        match self {
            Failure::MissingFile => String::from_str("No file uploaded"),
            Failure::MissingData => String::from_str("Missing file or metadata"),
            Failure::TempFileCreate(e) => joined("Failed to create temp file: ", e.as_str()),
            Failure::TempFileWrite(e) => joined("Failed to write file: ", e.as_str()),
            Failure::ToolFailed(_, e) => joined("exiftool failed: ", e.as_str()),
            Failure::ToolNotStarted(_, e) => joined("Failed to execute exiftool: ", e.as_str()),
            Failure::OutputTooSmall(_) => String::from_str(
                "Output file is too small, likely an error occurred",
            ),
            Failure::OutputUnreadable(_, e) => joined("Failed to read output file: ", e.as_str()),
        }
    }

    /// Returns the error code of the reply, if it has one.
    pub fn code(&self) -> (r: Option<&'static str>)
        ensures
            match r {
                Some(c) => self.code_spec() == Some(c@),
                None => self.code_spec() is None,
            },
    {
        match self {
            Failure::MissingFile => Some("MISSING_FILE"),
            Failure::MissingData => Some("MISSING_DATA"),
            Failure::TempFileCreate(_) | Failure::TempFileWrite(_) => None,
            Failure::ToolFailed(op, _) => Some(operation_code_text(*op)),
            Failure::ToolNotStarted(op, _) => Some(operation_code_text(*op)),
            Failure::OutputTooSmall(op) => Some(operation_code_text(*op)),
            Failure::OutputUnreadable(op, _) => Some(operation_code_text(*op)),
        }
    }
}

/// The smallest output file, in bytes, that is taken for an image.
pub const MIN_OUTPUT_BYTES: u64 = 1000;

/// Judges an ExifTool run by its exit status: a failed run is refused with
/// its error output, decoded as UTF-8 with U+FFFD for invalid bytes.
pub fn run_outcome(op: Operation, succeeded: bool, stderr: &[u8]) -> (r: Option<Failure>)
    ensures
        succeeded ==> r is None,
        !succeeded ==> (r matches Some(Failure::ToolFailed(o, e)) && o == op && e@ == utf8_lossy(
            stderr@,
        )),
{
    if succeeded {
        None
    } else {
        Some(Failure::ToolFailed(op, decode_utf8_lossy(stderr)))
    }
}

/// Judges ExifTool's output file by its size, or by why its size could not
/// be read.
pub fn output_size_outcome(op: Operation, size: Result<u64, String>) -> (r: Option<Failure>)
    ensures
        match size {
            Ok(n) => if n < MIN_OUTPUT_BYTES {
                r == Some(Failure::OutputTooSmall(op))
            } else {
                r is None
            },
            Err(e) => r == Some(Failure::OutputUnreadable(op, e)),
        },
{
    match size {
        Ok(n) => if n < MIN_OUTPUT_BYTES {
            Some(Failure::OutputTooSmall(op))
        } else {
            None
        },
        Err(e) => Some(Failure::OutputUnreadable(op, e)),
    }
}

/// The bytes sent back after ExifTool wrote its output file. A write fails
/// when the file cannot be read; a delete then sends back nothing.
pub fn output_body(op: Operation, contents: Result<Vec<u8>, String>) -> (r: Result<Vec<u8>, Failure>)
    ensures
        match contents {
            Ok(bytes) => r == Ok::<Vec<u8>, Failure>(bytes),
            Err(e) => if op == Operation::Write {
                r == Err::<Vec<u8>, Failure>(Failure::OutputUnreadable(op, e))
            } else {
                r matches Ok(bytes) && bytes@.len() == 0
            },
        },
{
    match contents {
        Ok(bytes) => Ok(bytes),
        Err(e) => if op == Operation::Write {
            Err(Failure::OutputUnreadable(op, e))
        } else {
            Ok(Vec::new())
        },
    }
}

/// The name under which a report names the uploaded file.
pub open spec fn report_name_spec(original: Seq<char>) -> Seq<char> {
    if original.len() == 0 {
        "uploaded"@
    } else {
        original
    }
}

/// Returns the name under which a report names the uploaded file: the
/// client's file name, or `uploaded` when it gave none.
pub fn report_name(original: &str) -> (r: String)
    ensures
        r@ == report_name_spec(original@),
{
    if original.is_empty() {
        String::from_str("uploaded")
    } else {
        String::from_str(original)
    }
}

/// The name under which a changed file is sent back.
pub open spec fn download_name_spec(original: Seq<char>) -> Seq<char> {
    if original.len() == 0 {
        "modified.jpg"@
    } else {
        "modified_"@ + original
    }
}

/// Returns the name under which a changed file is sent back: `modified_`
/// before the client's file name, or `modified.jpg` when it gave none.
pub fn download_name(original: &str) -> (r: String)
    ensures
        r@ == download_name_spec(original@),
{
    if original.is_empty() {
        String::from_str("modified.jpg")
    } else {
        joined("modified_", original)
    }
}

/// The `Content-Disposition` header that offers a file for download.
pub fn content_disposition(filename: &str) -> (r: String)
    ensures
        r@ == "attachment; filename=\""@ + filename@ + "\""@,
{
    let mut header = String::from_str("attachment; filename=\"");
    header.append(filename);
    header.append("\"");
    header
}

/// A request is refused with status 400 exactly when it came without a file;
/// every other refusal is a server error, and a refusal after ExifTool was
/// started carries the error code of its operation.
pub proof fn lemma_refusal_status(f: Failure)
    ensures
        f.status_spec() == 400 <==> (f is MissingFile || f is MissingData),
        f.status_spec() != 400 ==> f.status_spec() == 500,
        missing_upload_spec(Operation::Read).status_spec() == 400,
        missing_upload_spec(Operation::Write).status_spec() == 400,
        missing_upload_spec(Operation::Delete).status_spec() == 400,
        f matches Failure::ToolFailed(op, _) ==> f.code_spec() == Some(operation_code(op)),
        f matches Failure::ToolNotStarted(op, _) ==> f.code_spec() == Some(operation_code(op)),
        f matches Failure::OutputTooSmall(op) ==> f.code_spec() == Some(operation_code(op)),
        f matches Failure::OutputUnreadable(op, _) ==> f.code_spec() == Some(operation_code(op)),
{
}

} // verus!
