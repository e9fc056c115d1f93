use vstd::prelude::*;

verus! {

/// Engine status: the call succeeded.
pub const QPDF_E_SUCCESS: u32 = 0;

/// Engine status: an internal error.
pub const QPDF_E_INTERNAL: u32 = 1;

/// Engine status: an operating-system error.
pub const QPDF_E_SYSTEM: u32 = 2;

/// Engine status: a feature the engine does not handle.
pub const QPDF_E_UNSUPPORTED: u32 = 3;

/// Engine status: a missing or wrong password.
pub const QPDF_E_PASSWORD: u32 = 4;

/// Engine status: structurally broken input.
pub const QPDF_E_DAMAGED_PDF: u32 = 5;

/// Engine status: an error in the page tree.
pub const QPDF_E_PAGES: u32 = 6;

/// Engine status: an error in an object.
pub const QPDF_E_OBJECT: u32 = 7;

/// Error codes returned by engine calls
#[derive(Debug, Clone, Copy, PartialEq, Eq, Structural, PartialOrd, Hash)]
pub enum QPdfErrorCode {
    Unknown,
    InvalidParameter,
    InternalError,
    SystemError,
    Unsupported,
    InvalidPassword,
    DamagedPdf,
    PagesError,
    ObjectError,
}

impl Default for QPdfErrorCode {
    fn default() -> (r: Self)
        ensures
            r == QPdfErrorCode::Unknown,
    {
        QPdfErrorCode::Unknown
    }
}

/// The error kind that an engine status code stands for; `None` for success.
pub open spec fn kind_of_status(code: u32) -> Option<QPdfErrorCode> {
    if code == QPDF_E_SUCCESS {
        None
    } else if code == QPDF_E_INTERNAL {
        Some(QPdfErrorCode::InternalError)
    } else if code == QPDF_E_SYSTEM {
        Some(QPdfErrorCode::SystemError)
    } else if code == QPDF_E_UNSUPPORTED {
        Some(QPdfErrorCode::Unsupported)
    } else if code == QPDF_E_PASSWORD {
        Some(QPdfErrorCode::InvalidPassword)
    } else if code == QPDF_E_DAMAGED_PDF {
        Some(QPdfErrorCode::DamagedPdf)
    } else if code == QPDF_E_PAGES {
        Some(QPdfErrorCode::PagesError)
    } else if code == QPDF_E_OBJECT {
        Some(QPdfErrorCode::ObjectError)
    } else {
        Some(QPdfErrorCode::Unknown)
    }
}

/// The text that names an error kind.
pub open spec fn code_name(code: QPdfErrorCode) -> Seq<char> {
    match code {
        QPdfErrorCode::Unknown => "Unknown"@,
        QPdfErrorCode::InvalidParameter => "InvalidParameter"@,
        QPdfErrorCode::InternalError => "InternalError"@,
        QPdfErrorCode::SystemError => "SystemError"@,
        QPdfErrorCode::Unsupported => "Unsupported"@,
        QPdfErrorCode::InvalidPassword => "InvalidPassword"@,
        QPdfErrorCode::DamagedPdf => "DamagedPdf"@,
        QPdfErrorCode::PagesError => "PagesError"@,
        QPdfErrorCode::ObjectError => "ObjectError"@,
    }
}

/// The description carried by a parameter that holds a NUL character.
pub open spec fn nul_description() -> Seq<char> {
    "Unexpected null code in the string parameter"@
}

/// QPdfError holds an error code and optional extra information
#[derive(Debug, Clone, PartialEq, Eq)]
pub struct QPdfError {
    pub error_code: QPdfErrorCode,
    pub description: Option<String>,
    pub position: Option<u64>,
}

impl Default for QPdfError {
    fn default() -> (r: Self)
        ensures
            r.error_code == QPdfErrorCode::Unknown,
            r.description.is_none(),
            r.position.is_none(),
    {
        QPdfError { error_code: QPdfErrorCode::Unknown, description: None, position: None }
    }
}

impl QPdfError {
    /// The kind of this error
    pub fn error_code(&self) -> (r: QPdfErrorCode)
        ensures
            r == self.error_code,
    {
        self.error_code
    }

    /// The engine's detail message, if it gave one
    pub fn description(&self) -> (r: Option<&str>)
        ensures
            r.is_some() == self.description.is_some(),
            r.is_some() ==> r.unwrap()@ == self.description.unwrap()@,
    {
        match &self.description {
            Some(d) => Some(d.as_str()),
            None => None,
        }
    }

    /// The byte offset in the input at which the engine reported the error
    pub fn position(&self) -> (r: Option<u64>)
        ensures
            r == self.position,
    {
        self.position
    }

    /// The error for a string argument that holds a NUL character, which
    /// cannot be handed to the engine
    pub fn nul_in_parameter() -> (r: QPdfError)
        ensures
            r.error_code == QPdfErrorCode::InvalidParameter,
            r.description.is_some(),
            r.description.unwrap()@ == nul_description(),
            r.position.is_none(),
    {
        QPdfError {
            error_code: QPdfErrorCode::InvalidParameter,
            description: Some(String::from_str("Unexpected null code in the string parameter")),
            position: None,
        }
    }
}

/// Map an engine status code to `Ok` on success, else to an error of the
/// matching kind without description or position.
pub fn error_or_ok(code: u32) -> (r: Result<(), QPdfError>)
    ensures
        r.is_ok() <==> kind_of_status(code).is_none(),
        r.is_err() ==> r->Err_0.error_code == kind_of_status(code).unwrap(),
        r.is_err() ==> r->Err_0.description.is_none(),
        r.is_err() ==> r->Err_0.position.is_none(),
{
    let kind = if code == QPDF_E_SUCCESS {
        return Ok(());
    } else if code == QPDF_E_INTERNAL {
        QPdfErrorCode::InternalError
    } else if code == QPDF_E_SYSTEM {
        QPdfErrorCode::SystemError
    } else if code == QPDF_E_UNSUPPORTED {
        QPdfErrorCode::Unsupported
    } else if code == QPDF_E_PASSWORD {
        QPdfErrorCode::InvalidPassword
    } else if code == QPDF_E_DAMAGED_PDF {
        QPdfErrorCode::DamagedPdf
    } else if code == QPDF_E_PAGES {
        QPdfErrorCode::PagesError
    } else if code == QPDF_E_OBJECT {
        QPdfErrorCode::ObjectError
    } else {
        QPdfErrorCode::Unknown
    };
    Err(QPdfError { error_code: kind, description: None, position: None })
}

/// The error that an engine error record stands for: `None` where the
/// record holds no error.
pub open spec fn record_error(has_error: bool, code: u32, detail: Option<Seq<char>>, position: u64) -> Option<(QPdfErrorCode, Option<Seq<char>>, u64)> {
    if !has_error || kind_of_status(code).is_none() {
        None
    } else {
        Some((kind_of_status(code).unwrap(), detail, position))
    }
}

/// The view of an optional string.
pub open spec fn opt_view(s: Option<String>) -> Option<Seq<char>> {
    match s {
        Some(t) => Some(t@),
        None => None,
    }
}

/// Turn the engine's error record, read right after a call, into a result.
/// Without a pending error, or with a pending status of success, the call
/// succeeded; else the error carries the engine's kind, detail message and
/// byte offset.
pub fn translate_error(has_error: bool, code: u32, detail: Option<String>, position: u64) -> (r: Result<(), QPdfError>)
    ensures
        r.is_ok() <==> record_error(has_error, code, opt_view(detail), position).is_none(),
        r.is_err() ==> Some((r->Err_0.error_code, opt_view(r->Err_0.description), r->Err_0.position.unwrap()))
            == record_error(has_error, code, opt_view(detail), position),
        r.is_err() ==> r->Err_0.position.is_some(),
{
    if !has_error {
        return Ok(());
    }
    match error_or_ok(code) {
        Ok(()) => Ok(()),
        Err(e) => Err(QPdfError { error_code: e.error_code, description: detail, position: Some(position) }),
    }
}

/// Whether `s` holds a NUL character.
pub open spec fn has_nul(s: Seq<char>) -> bool {
    exists|i: int| 0 <= i < s.len() && s[i] == '\0'
}

/// Check that a string argument can be handed to the engine, which takes
/// NUL-terminated strings: one that holds a NUL character is refused.
pub fn check_c_string(s: &str) -> (r: Result<(), QPdfError>)
    ensures
        r.is_ok() <==> !has_nul(s@),
        r.is_err() ==> r->Err_0.error_code == QPdfErrorCode::InvalidParameter,
        r.is_err() ==> r->Err_0.description.is_some() && r->Err_0.description.unwrap()@ == nul_description(),
        r.is_err() ==> r->Err_0.position.is_none(),
{
    let n = s.unicode_len();
    let mut i: usize = 0;
    while i < n
        invariant
            n == s@.len(),
            i <= n,
            forall|j: int| 0 <= j < i ==> s@[j] != '\0',
        decreases n - i,
    {
        if s.get_char(i) == '\0' {
            return Err(QPdfError::nul_in_parameter());
        }
        i = i + 1;
    }
    Ok(())
}

impl QPdfError {
    /// The message shown for this error: the kind's name, a colon, and the
    /// description (empty where there is none)
    pub fn to_string(&self) -> (r: String)
        ensures
            r@ == code_name(self.error_code) + ": "@ + match self.description {
                Some(d) => d@,
                None => Seq::<char>::empty(),
            },
    {
        let name = match self.error_code {
            QPdfErrorCode::Unknown => "Unknown",
            QPdfErrorCode::InvalidParameter => "InvalidParameter",
            QPdfErrorCode::InternalError => "InternalError",
            QPdfErrorCode::SystemError => "SystemError",
            QPdfErrorCode::Unsupported => "Unsupported",
            QPdfErrorCode::InvalidPassword => "InvalidPassword",
            QPdfErrorCode::DamagedPdf => "DamagedPdf",
            QPdfErrorCode::PagesError => "PagesError",
            QPdfErrorCode::ObjectError => "ObjectError",
        };
        let head = String::from_str(name).concat(": ");
        match &self.description {
            Some(d) => head.concat(d.as_str()),
            None => {
                proof {
                    assert(head@ + Seq::<char>::empty() =~= head@);
                }
                head
            },
        }
    }
}

} // verus!
