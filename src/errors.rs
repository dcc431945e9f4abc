use vstd::prelude::*;

verus! {

/// The four error categories that the API reports.
#[derive(Debug, Clone, Copy)]
pub enum ErrorType {
    Unauthorized,
    BadRequest,
    NotFound,
    InternalServerError,
}

impl ErrorType {
    /// The HTTP status code that belongs to a category.
    pub open spec fn status_spec(self) -> u16 {
        match self {
            ErrorType::Unauthorized => 403,
            ErrorType::BadRequest => 400,
            ErrorType::NotFound => 404,
            ErrorType::InternalServerError => 500,
        }
    }

    /// The category's name, as the API spells it.
    pub open spec fn name_spec(self) -> Seq<char> {
        match self {
            ErrorType::Unauthorized => seq!['U', 'n', 'a', 'u', 't', 'h', 'o', 'r', 'i', 'z', 'e', 'd'],
            ErrorType::BadRequest => seq!['B', 'a', 'd', 'R', 'e', 'q', 'u', 'e', 's', 't'],
            ErrorType::NotFound => seq!['N', 'o', 't', 'F', 'o', 'u', 'n', 'd'],
            ErrorType::InternalServerError => seq![
                'I', 'n', 't', 'e', 'r', 'n', 'a', 'l', 'S', 'e', 'r', 'v', 'e', 'r',
                'E', 'r', 'r', 'o', 'r',
            ],
        }
    }

    pub fn status(&self) -> (r: u16)
        ensures
            r == self.status_spec(),
    {
        match self {
            ErrorType::Unauthorized => 403,
            ErrorType::BadRequest => 400,
            ErrorType::NotFound => 404,
            ErrorType::InternalServerError => 500,
        }
    }

    /// The category's name, as text.
    pub fn name(&self) -> (r: String)
        ensures
            r@ == self.name_spec(),
    {
        let s = match self {
            ErrorType::Unauthorized => "Unauthorized",
            ErrorType::BadRequest => "BadRequest",
            ErrorType::NotFound => "NotFound",
            ErrorType::InternalServerError => "InternalServerError",
        };
        proof {
            reveal_strlit("Unauthorized");
            reveal_strlit("BadRequest");
            reveal_strlit("NotFound");
            reveal_strlit("InternalServerError");
        }
        let r = String::from_str(s);
        proof {
            assert(r@ =~= self.name_spec());
        }
        r
    }

    /// Renders the category as text.
    pub fn to_string(&self) -> (r: String)
        ensures
            r@ == self.name_spec(),
    {
        self.name()
    }
}

/// Two categories are equal when they are the same variant.
impl PartialEq for ErrorType {
    fn eq(&self, other: &ErrorType) -> (r: bool) {
        match (self, other) {
            (ErrorType::Unauthorized, ErrorType::Unauthorized) => true,
            (ErrorType::BadRequest, ErrorType::BadRequest) => true,
            (ErrorType::NotFound, ErrorType::NotFound) => true,
            (ErrorType::InternalServerError, ErrorType::InternalServerError) => true,
            _ => false,
        }
    }
}

impl vstd::std_specs::cmp::PartialEqSpecImpl for ErrorType {
    open spec fn obeys_eq_spec() -> bool {
        true
    }

    open spec fn eq_spec(&self, other: &ErrorType) -> bool {
        *self == *other
    }
}

impl Eq for ErrorType {
}

/// An error record: a title, an HTTP status and a category.
#[derive(Debug, Clone)]
pub struct Error {
    pub title: String,
    pub status: u16,
    pub error_type: ErrorType,
}

/// An error as the API reports it: a category and the message shown to the
/// caller.
#[derive(Debug, Clone)]
pub enum GqlError {
    NotFound(String),
    InternalServerError(String),
    BadRequest(String),
    Unauthorized(String),
}

/// The generic message of every internal failure.
pub open spec fn internal_message() -> Seq<char> {
    seq!['I', 'n', 't', 'e', 'r', 'n', 'a', 'l', ' ', 's', 'e', 'r', 'v', 'e', 'r', ' ', 'e', 'r', 'r', 'o', 'r']
}

/// The message of a failed by-id lookup.
pub open spec fn not_found_message() -> Seq<char> {
    seq!['N', 'o', 't', ' ', 'f', 'o', 'u', 'n', 'd']
}

/// The message of a malformed composite id.
pub open spec fn bad_id_message() -> Seq<char> {
    seq!['M', 'a', 'l', 'f', 'o', 'r', 'm', 'e', 'd', ' ', 't', 'a', 's', 'k', ' ', 'i', 'd']
}

impl GqlError {
    pub open spec fn kind_spec(&self) -> ErrorType {
        match self {
            GqlError::NotFound(_) => ErrorType::NotFound,
            GqlError::InternalServerError(_) => ErrorType::InternalServerError,
            GqlError::BadRequest(_) => ErrorType::BadRequest,
            GqlError::Unauthorized(_) => ErrorType::Unauthorized,
        }
    }

    pub open spec fn message_spec(&self) -> Seq<char> {
        match self {
            GqlError::NotFound(m) => m@,
            GqlError::InternalServerError(m) => m@,
            GqlError::BadRequest(m) => m@,
            GqlError::Unauthorized(m) => m@,
        }
    }

    /// The generic internal error that every failure but a missing item
    /// or a malformed id becomes.
    pub fn internal() -> (r: GqlError)
        ensures
            r.kind_spec() == ErrorType::InternalServerError,
            r.message_spec() == internal_message(),
    {
        proof {
            reveal_strlit("Internal server error");
        }
        let m = String::from_str("Internal server error");
        proof {
            assert(m@ =~= internal_message());
        }
        GqlError::InternalServerError(m)
    }

    /// The error of a by-id lookup that matched nothing.
    pub fn not_found() -> (r: GqlError)
        ensures
            r.kind_spec() == ErrorType::NotFound,
            r.message_spec() == not_found_message(),
    {
        proof {
            reveal_strlit("Not found");
        }
        let m = String::from_str("Not found");
        proof {
            assert(m@ =~= not_found_message());
        }
        GqlError::NotFound(m)
    }

    /// The error of a composite id that does not hold two tokens.
    pub fn bad_id() -> (r: GqlError)
        ensures
            r.kind_spec() == ErrorType::BadRequest,
            r.message_spec() == bad_id_message(),
    {
        proof {
            reveal_strlit("Malformed task id");
        }
        let m = String::from_str("Malformed task id");
        proof {
            assert(m@ =~= bad_id_message());
        }
        GqlError::BadRequest(m)
    }

    /// The category of the error.
    pub fn error_type(&self) -> (r: ErrorType)
        ensures
            r == self.kind_spec(),
    {
        match self {
            GqlError::NotFound(_) => ErrorType::NotFound,
            GqlError::InternalServerError(_) => ErrorType::InternalServerError,
            GqlError::BadRequest(_) => ErrorType::BadRequest,
            GqlError::Unauthorized(_) => ErrorType::Unauthorized,
        }
    }

    /// The status code reported with the error, as text ("404", "500", ...).
    pub fn code(&self) -> (r: String)
        ensures
            r@ == code_text(self.kind_spec().status_spec()),
    {
        let s = match self {
            GqlError::NotFound(_) => "404",
            GqlError::InternalServerError(_) => "500",
            GqlError::BadRequest(_) => "400",
            GqlError::Unauthorized(_) => "403",
        };
        proof {
            reveal_strlit("404");
            reveal_strlit("500");
            reveal_strlit("400");
            reveal_strlit("403");
        }
        let r = String::from_str(s);
        proof {
            assert(r@ =~= code_text(self.kind_spec().status_spec()));
        }
        r
    }

    /// The message shown to the caller.
    pub fn message(&self) -> (r: String)
        ensures
            r@ == self.message_spec(),
    {
        match self {
            GqlError::NotFound(m) => m.clone(),
            GqlError::InternalServerError(m) => m.clone(),
            GqlError::BadRequest(m) => m.clone(),
            GqlError::Unauthorized(m) => m.clone(),
        }
    }
}

/// The decimal text of one of the four status codes.
pub open spec fn code_text(status: u16) -> Seq<char> {
    if status == 403 {
        seq!['4', '0', '3']
    } else if status == 400 {
        seq!['4', '0', '0']
    } else if status == 404 {
        seq!['4', '0', '4']
    } else {
        seq!['5', '0', '0']
    }
}

/// Maps an error record to the API error: statuses 403, 400 and 404
/// keep their category and title; every other status becomes the generic
/// internal error.
pub fn get_gql_error(e: Error) -> (r: GqlError)
    ensures
        e.status == 403 ==> r.kind_spec() == ErrorType::Unauthorized && r.message_spec() == e.title@,
        e.status == 400 ==> r.kind_spec() == ErrorType::BadRequest && r.message_spec() == e.title@,
        e.status == 404 ==> r.kind_spec() == ErrorType::NotFound && r.message_spec() == e.title@,
        e.status != 403 && e.status != 400 && e.status != 404 ==> r.kind_spec()
            == ErrorType::InternalServerError && r.message_spec() == internal_message(),
{
    if e.status == 403 {
        GqlError::Unauthorized(e.title)
    } else if e.status == 400 {
        GqlError::BadRequest(e.title)
    } else if e.status == 404 {
        GqlError::NotFound(e.title)
    } else {
        GqlError::internal()
    }
}

} // verus!
