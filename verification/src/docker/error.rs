//! What can go wrong while reconciling, and how it is reported.
use crate::docker::client::{ClientError, ClientErrorView};
use vstd::prelude::*;

verus! {

/// The runtime operations a failure can be about.
#[derive(Debug, Clone, Copy, PartialEq, Eq)]
pub enum Operation {
    ListContainers,
    ListImages,
    BuildImage,
    StartContainer,
    StopContainer,
    Run,
    Exec,
}

/// A failed reconciliation step: which operation failed, against which name,
/// and the client's own error, unchanged.
#[derive(Debug, Clone, PartialEq, Eq)]
pub enum Error {
    /// A label query could not be answered.
    RuntimeQueryFailed { operation: Operation, name: String, cause: ClientError },
    /// The image build was run and failed.
    BuildFailed { name: String, cause: ClientError },
    /// The image build was run and reported success, but the runtime holds no
    /// image under the expected tag.
    ImageBuildVerificationFailed { tag: String },
    /// Creating, starting, stopping or attaching to the container failed.
    ExecutionFailed { operation: Operation, name: String, cause: ClientError },
    /// More than one container carries the project's label.
    AmbiguousContainer { name: String },
}

/// [`Error`] with its text as sequences of characters.
pub enum ErrorView {
    RuntimeQueryFailed { operation: Operation, name: Seq<char>, cause: ClientErrorView },
    BuildFailed { name: Seq<char>, cause: ClientErrorView },
    ImageBuildVerificationFailed { tag: Seq<char> },
    ExecutionFailed { operation: Operation, name: Seq<char>, cause: ClientErrorView },
    AmbiguousContainer { name: Seq<char> },
}

/// The broad classes of failure.
#[derive(Debug, Clone, Copy, PartialEq, Eq)]
pub enum ErrorKind {
    /// The runtime is in a state that the project's configuration does not
    /// allow for, and that only the user can mend.
    Configuration,
    /// A query to the runtime failed.
    RuntimeQueryFailed,
    /// No usable image came out of a build.
    BuildFailed,
    /// A command against the container failed.
    ExecutionFailed,
}

impl View for Error {
    type V = ErrorView;

    open spec fn view(&self) -> ErrorView {
        match *self {
            Error::RuntimeQueryFailed { operation, name, cause } => ErrorView::RuntimeQueryFailed {
                operation,
                name: name@,
                cause: cause@,
            },
            Error::BuildFailed { name, cause } => ErrorView::BuildFailed {
                name: name@,
                cause: cause@,
            },
            Error::ImageBuildVerificationFailed { tag } => ErrorView::ImageBuildVerificationFailed {
                tag: tag@,
            },
            Error::ExecutionFailed { operation, name, cause } => ErrorView::ExecutionFailed {
                operation,
                name: name@,
                cause: cause@,
            },
            Error::AmbiguousContainer { name } => ErrorView::AmbiguousContainer { name: name@ },
        }
    }
}

/// The view of a result that carries nothing on success.
pub open spec fn unit_view(r: Result<(), Error>) -> Result<(), ErrorView> {
    match r {
        Ok(_) => Ok(()),
        Err(e) => Err(e@),
    }
}

impl ErrorView {
    /// The class a failure belongs to.
    pub open spec fn kind(self) -> ErrorKind {
        match self {
            ErrorView::RuntimeQueryFailed { .. } => ErrorKind::RuntimeQueryFailed,
            ErrorView::BuildFailed { .. } => ErrorKind::BuildFailed,
            ErrorView::ImageBuildVerificationFailed { .. } => ErrorKind::BuildFailed,
            ErrorView::ExecutionFailed { .. } => ErrorKind::ExecutionFailed,
            ErrorView::AmbiguousContainer { .. } => ErrorKind::Configuration,
        }
    }

    /// The failure in words.
    pub open spec fn message(self) -> Seq<char> {
        match self {
            ErrorView::RuntimeQueryFailed { operation, .. } => operation_message(operation),
            ErrorView::BuildFailed { .. } => operation_message(Operation::BuildImage),
            ErrorView::ImageBuildVerificationFailed { .. } => "Image not found after build"@,
            ErrorView::ExecutionFailed { operation, .. } => operation_message(operation),
            ErrorView::AmbiguousContainer { .. } => "Multiple containers with the same name"@,
        }
    }
}

/// What is said when an operation fails.
pub open spec fn operation_message(operation: Operation) -> Seq<char> {
    match operation {
        Operation::ListContainers => "can not list containers"@,
        Operation::ListImages => "can not list images"@,
        Operation::BuildImage => "can not build image"@,
        Operation::StartContainer => "can not start container"@,
        Operation::StopContainer => "can not stop container"@,
        Operation::Run => "can not run container"@,
        Operation::Exec => "can not exec in container"@,
    }
}

impl Operation {
    /// What is said when this operation fails.
    pub fn message(&self) -> (m: &'static str)
        ensures
            m@ == operation_message(*self),
    {
        match self {
            Operation::ListContainers => "can not list containers",
            Operation::ListImages => "can not list images",
            Operation::BuildImage => "can not build image",
            Operation::StartContainer => "can not start container",
            Operation::StopContainer => "can not stop container",
            Operation::Run => "can not run container",
            Operation::Exec => "can not exec in container",
        }
    }
}

impl Error {
    /// The class this failure belongs to.
    pub fn kind(&self) -> (k: ErrorKind)
        ensures
            k == self@.kind(),
    {
        match self {
            Error::RuntimeQueryFailed { .. } => ErrorKind::RuntimeQueryFailed,
            Error::BuildFailed { .. } => ErrorKind::BuildFailed,
            Error::ImageBuildVerificationFailed { .. } => ErrorKind::BuildFailed,
            Error::ExecutionFailed { .. } => ErrorKind::ExecutionFailed,
            Error::AmbiguousContainer { .. } => ErrorKind::Configuration,
        }
    }

    /// The failure in words, without its cause.
    pub fn message(&self) -> (m: &'static str)
        ensures
            m@ == self@.message(),
    {
        match self {
            Error::RuntimeQueryFailed { operation, .. } => operation.message(),
            Error::BuildFailed { .. } => Operation::BuildImage.message(),
            Error::ImageBuildVerificationFailed { .. } => "Image not found after build",
            Error::ExecutionFailed { operation, .. } => operation.message(),
            Error::AmbiguousContainer { .. } => "Multiple containers with the same name",
        }
    }

    /// A failed label query.
    pub fn query_failed(operation: Operation, name: &str, cause: ClientError) -> (e: Error)
        ensures
            e@ == (ErrorView::RuntimeQueryFailed { operation, name: name@, cause: cause@ }),
    {
        Error::RuntimeQueryFailed { operation, name: String::from_str(name), cause }
    }

    /// A failed command against a container.
    pub fn execution_failed(operation: Operation, name: &str, cause: ClientError) -> (e: Error)
        ensures
            e@ == (ErrorView::ExecutionFailed { operation, name: name@, cause: cause@ }),
    {
        Error::ExecutionFailed { operation, name: String::from_str(name), cause }
    }
}

} // verus!
