//! The result algebra: the outcome of an RPC call and its combination rule.
//!
//! Handlers that perform several independent fallible sub-actions combine
//! the outcomes with [`RpcResult::combine`]: every failure is kept, no
//! failure is masked by an unrelated success, and two successes collapse
//! into a success without a payload.

use vstd::prelude::*;

use crate::rpc::operation_mode::OperationMode;

verus! {

/// Default response status for errors: the client-error class.
pub const DEFAULT_ERROR_STATUS: u16 = 400;

/// Details of one failed sub-action.
#[derive(Clone, Debug, PartialEq, Eq)]
pub struct Error {
    message: Option<String>,
    details: Option<String>,
    exit_code: Option<u32>,
}

/// Mathematical model of an [`Error`].
pub struct ErrorModel {
    pub message: Option<Seq<char>>,
    pub details: Option<Seq<char>>,
    pub exit_code: Option<u32>,
}

impl View for Error {
    type V = ErrorModel;

    closed spec fn view(&self) -> ErrorModel {
        ErrorModel {
            message: match self.message {
                Some(m) => Some(m@),
                None => None,
            },
            details: match self.details {
                Some(d) => Some(d@),
                None => None,
            },
            exit_code: self.exit_code,
        }
    }
}

impl Error {
    /// Creates an error from its three optional parts.
    pub fn new(message: Option<String>, details: Option<String>, exit_code: Option<u32>) -> (r:
        Self)
        ensures
            r@.message == match message {
                Some(m) => Some(m@),
                None => None::<Seq<char>>,
            },
            r@.details == match details {
                Some(d) => Some(d@),
                None => None::<Seq<char>>,
            },
            r@.exit_code == exit_code,
    {
        Self { message, details, exit_code }
    }

    /// Creates an error that carries only a message.
    pub fn from_message(message: &str) -> (r: Self)
        ensures
            r@.message == Some(message@),
            r@.details is None,
            r@.exit_code is None,
    {
        Self::new(Some(message.to_owned()), None, None)
    }

    /// The message of the error, if it has one.
    pub fn message(&self) -> (r: Option<&str>)
        ensures
            match r {
                Some(m) => self@.message == Some(m@),
                None => self@.message is None,
            },
    {
        match &self.message {
            Some(m) => Some(m.as_str()),
            None => None,
        }
    }

    /// The details of the error, if it has any.
    pub fn details(&self) -> (r: Option<&str>)
        ensures
            match r {
                Some(d) => self@.details == Some(d@),
                None => self@.details is None,
            },
    {
        match &self.details {
            Some(d) => Some(d.as_str()),
            None => None,
        }
    }

    /// The exit code associated with the error, if it has one.
    pub fn exit_code(&self) -> (r: Option<u32>)
        ensures
            r == self@.exit_code,
    {
        self.exit_code
    }
}

/// An ordered list of errors together with one response status code.
#[derive(Clone, Debug, PartialEq, Eq)]
pub struct Errors {
    errors: Vec<Error>,
    status: u16,
}

/// Mathematical model of an [`Errors`] value.
#[verifier::ext_equal]
pub struct ErrorsModel {
    pub errors: Seq<ErrorModel>,
    pub status: u16,
}

impl View for Errors {
    type V = ErrorsModel;

    closed spec fn view(&self) -> ErrorsModel {
        ErrorsModel {
            errors: Seq::new(self.errors@.len(), |i: int| self.errors@[i]@),
            status: self.status,
        }
    }
}

impl Errors {
    /// Creates an error list with the given status, defaulting to the
    /// client-error class when no status is given.
    pub fn new(errors: Vec<Error>, status: Option<u16>) -> (r: Self)
        ensures
            r@.errors == Seq::new(errors@.len(), |i: int| errors@[i]@),
            r@.status == match status {
                Some(s) => s,
                None => DEFAULT_ERROR_STATUS,
            },
    {
        Self {
            errors,
            status: match status {
                Some(s) => s,
                None => DEFAULT_ERROR_STATUS,
            },
        }
    }

    /// Creates an error list holding one error with the given message and
    /// the default status.
    pub fn from_message(message: &str) -> (r: Self)
        ensures
            r@.errors.len() == 1,
            r@.errors[0].message == Some(message@),
            r@.errors[0].details is None,
            r@.errors[0].exit_code is None,
            r@.status == DEFAULT_ERROR_STATUS,
    {
        let r = Self::new(vec![Error::from_message(message)], None);
        assert(r@.errors =~= Seq::new(1, |i: int| r@.errors[0]));
        r
    }

    /// The errors of the list.
    pub fn errors(&self) -> (r: &Vec<Error>)
        ensures
            self@.errors == Seq::new(r@.len(), |i: int| r@[i]@),
    {
        &self.errors
    }

    /// The response status of the list.
    pub fn status(&self) -> (r: u16)
        ensures
            r == self@.status,
    {
        self.status
    }

    /// Concatenates two error lists; the status of the left operand wins.
    pub fn combine(self, rhs: Self) -> (r: Self)
        ensures
            r@.errors == self@.errors + rhs@.errors,
            r@.status == self@.status,
    {
        let mut errors = self.errors;
        let mut tail = rhs.errors;
        errors.append(&mut tail);
        let r = Self { errors, status: self.status };
        assert(r@.errors =~= self@.errors + rhs@.errors);
        r
    }
}

/// The payload of a successful RPC call: a closed set of serializable
/// bodies, resolved at the transport boundary.
#[derive(Clone, Debug, PartialEq, Eq)]
pub enum Payload {
    /// No payload.
    Empty,
    /// A plain text message.
    Text(String),
    /// A text that may be absent, such as a path that could not be resolved.
    OptionalText(Option<String>),
    /// The operation mode of the system.
    Mode(OperationMode),
}

/// Mathematical model of a [`Payload`].
pub enum PayloadModel {
    Empty,
    Text(Seq<char>),
    OptionalText(Option<Seq<char>>),
    Mode(OperationMode),
}

impl View for Payload {
    type V = PayloadModel;

    open spec fn view(&self) -> PayloadModel {
        match self {
            Payload::Empty => PayloadModel::Empty,
            Payload::Text(t) => PayloadModel::Text(t@),
            Payload::OptionalText(t) => PayloadModel::OptionalText(
                match t {
                    Some(t) => Some(t@),
                    None => None,
                },
            ),
            Payload::Mode(m) => PayloadModel::Mode(*m),
        }
    }
}

/// A result of an RPC call: either success with a payload, or a list of
/// errors with a response status.
#[derive(Clone, Debug, PartialEq, Eq)]
pub enum RpcResult {
    /// The RPC call was successful.
    Success(Payload),
    /// The RPC call failed.
    Error(Errors),
}

/// Mathematical model of an [`RpcResult`].
#[verifier::ext_equal]
pub enum ResultModel {
    Success(PayloadModel),
    Error(ErrorsModel),
}

impl View for RpcResult {
    type V = ResultModel;

    open spec fn view(&self) -> ResultModel {
        match self {
            RpcResult::Success(p) => ResultModel::Success(p@),
            RpcResult::Error(e) => ResultModel::Error(e@),
        }
    }
}

/// The model of an error result that carries one message and the
/// default status.
pub open spec fn spec_error_message(message: Seq<char>) -> ResultModel {
    ResultModel::Error(
        ErrorsModel {
            errors: seq![
                ErrorModel { message: Some(message), details: None, exit_code: None },
            ],
            status: DEFAULT_ERROR_STATUS,
        },
    )
}

/// Holds for an error result of the shape the handlers build for one
/// failed call: exactly one error, carrying only a message, at the
/// default status.
pub open spec fn single_message_error(r: ResultModel) -> bool {
    &&& r matches ResultModel::Error(e)
    &&& e.status == DEFAULT_ERROR_STATUS
    &&& e.errors.len() == 1
    &&& e.errors[0].message is Some
    &&& e.errors[0].details is None
    &&& e.errors[0].exit_code is None
}

/// The combination rule of the result algebra: errors dominate, their
/// lists concatenate in order, the left status wins, and two successes
/// collapse into a success without a payload.
pub open spec fn spec_combine(a: ResultModel, b: ResultModel) -> ResultModel {
    match (a, b) {
        (ResultModel::Error(e1), ResultModel::Error(e2)) => ResultModel::Error(
            ErrorsModel { errors: e1.errors + e2.errors, status: e1.status },
        ),
        (ResultModel::Error(e1), _) => ResultModel::Error(e1),
        (_, ResultModel::Error(e2)) => ResultModel::Error(e2),
        _ => ResultModel::Success(PayloadModel::Empty),
    }
}

impl RpcResult {
    /// Creates a success without a payload.
    pub fn success() -> (r: Self)
        ensures
            r@ == ResultModel::Success(PayloadModel::Empty),
    {
        RpcResult::Success(Payload::Empty)
    }

    /// Creates an error result holding one error with the given message
    /// and the default status.
    pub fn error_message(message: &str) -> (r: Self)
        ensures
            r@ == spec_error_message(message@),
    {
        let r = RpcResult::Error(Errors::from_message(message));
        assert(r@->Error_0.errors =~= spec_error_message(message@)->Error_0.errors);
        assert(r@ =~= spec_error_message(message@));
        r
    }

    /// Holds when the result reports success.
    pub fn is_success(&self) -> (b: bool)
        ensures
            b == (self@ is Success),
    {
        match self {
            RpcResult::Success(_) => true,
            RpcResult::Error(_) => false,
        }
    }

    /// Combines two results under the rule of the algebra.
    pub fn combine(self, rhs: Self) -> (r: Self)
        ensures
            r@ == spec_combine(self@, rhs@),
    {
        match (self, rhs) {
            (RpcResult::Error(lhs), RpcResult::Error(rhs)) => RpcResult::Error(lhs.combine(rhs)),
            (RpcResult::Error(lhs), _) => RpcResult::Error(lhs),
            (_, RpcResult::Error(rhs)) => RpcResult::Error(rhs),
            _ => RpcResult::Success(Payload::Empty),
        }
    }
}

/// The combination rule is associative.
pub proof fn lemma_combine_associative(x: ResultModel, y: ResultModel, z: ResultModel)
    ensures
        spec_combine(spec_combine(x, y), z) == spec_combine(x, spec_combine(y, z)),
{
    match (x, y, z) {
        (ResultModel::Error(e1), ResultModel::Error(e2), ResultModel::Error(e3)) => {
            assert(spec_combine(spec_combine(x, y), z) =~= spec_combine(x, spec_combine(y, z)));
        },
        _ => {},
    }
}

/// The combination of two results is an error exactly when one of the two
/// is an error; in particular combining is commutative with respect to
/// error-dominance.
pub proof fn lemma_combine_error_dominance(x: ResultModel, y: ResultModel)
    ensures
        (spec_combine(x, y) is Error) == ((x is Error) || (y is Error)),
        (spec_combine(x, y) is Error) == (spec_combine(y, x) is Error),
{
}

/// Combining two successes yields a success without a payload, whatever
/// the two payloads were.
pub proof fn lemma_combine_success(p: PayloadModel, q: PayloadModel)
    ensures
        spec_combine(ResultModel::Success(p), ResultModel::Success(q)) == ResultModel::Success(
            PayloadModel::Empty,
        ),
{
}

} // verus!

