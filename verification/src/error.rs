use vstd::prelude::*;

verus! {

/// Which kind of registry entry a lookup was after.
#[derive(Clone, Copy, Debug, PartialEq, Eq, Structural)]
pub enum Entity {
    Identity,
    Device,
}

/// The collaborator whose failure is being reported.
#[derive(Clone, Copy, Debug, PartialEq, Eq, Structural)]
pub enum Backend {
    Detection,
    Transfer,
    Exec,
    PackageManager,
    RecordStore,
}

/// Every failure an operation can hand to its caller.
#[derive(Clone, Debug, PartialEq, Eq)]
pub enum Error {
    /// An identity with this id is already registered.
    DuplicateIdentity { id: String },
    /// No identity or device is registered under this id.
    NotFound { entity: Entity, id: String },
    /// Probing a new device for its system and package manager failed.
    DeviceDetectionFailed { reason: String },
    /// Source and destination paths do not pair up.
    InvalidPathShape,
    /// A transfer between two identities failed.
    TransferFailed { reason: String },
    /// Running a command failed.
    ExecFailed { reason: String },
    /// The device has neither a system identity nor an ordinary one.
    NoActingIdentity { device: String },
    /// The package manager reported a failure.
    PackageManagerFailed { reason: String },
    /// The record store could not be read or written.
    RecordStoreFailed { reason: String },
    /// A caller-supplied argument does not have the expected shape.
    ConversionError { from: String, to: String, message: Option<String> },
}

/// Mathematical model of an [`Error`].
pub enum ErrorView {
    DuplicateIdentity { id: Seq<char> },
    NotFound { entity: Entity, id: Seq<char> },
    DeviceDetectionFailed { reason: Seq<char> },
    InvalidPathShape,
    TransferFailed { reason: Seq<char> },
    ExecFailed { reason: Seq<char> },
    NoActingIdentity { device: Seq<char> },
    PackageManagerFailed { reason: Seq<char> },
    RecordStoreFailed { reason: Seq<char> },
    ConversionError { from: Seq<char>, to: Seq<char>, message: Option<Seq<char>> },
}

impl View for Error {
    type V = ErrorView;

    open spec fn view(&self) -> ErrorView {
        match *self {
            Error::DuplicateIdentity { id } => ErrorView::DuplicateIdentity { id: id@ },
            Error::NotFound { entity, id } => ErrorView::NotFound { entity, id: id@ },
            Error::DeviceDetectionFailed { reason } => ErrorView::DeviceDetectionFailed {
                reason: reason@,
            },
            Error::InvalidPathShape => ErrorView::InvalidPathShape,
            Error::TransferFailed { reason } => ErrorView::TransferFailed { reason: reason@ },
            Error::ExecFailed { reason } => ErrorView::ExecFailed { reason: reason@ },
            Error::NoActingIdentity { device } => ErrorView::NoActingIdentity { device: device@ },
            Error::PackageManagerFailed { reason } => ErrorView::PackageManagerFailed {
                reason: reason@,
            },
            Error::RecordStoreFailed { reason } => ErrorView::RecordStoreFailed { reason: reason@ },
            Error::ConversionError { from, to, message } => ErrorView::ConversionError {
                from: from@,
                to: to@,
                message: match message {
                    Some(m) => Some(m@),
                    None => None,
                },
            },
        }
    }
}

impl DeepView for Error {
    type V = ErrorView;

    open spec fn deep_view(&self) -> ErrorView {
        self@
    }
}

/// The failure that stands for `reason` reported by `origin`.
pub open spec fn backend_failure(origin: Backend, reason: Seq<char>) -> ErrorView {
    match origin {
        Backend::Detection => ErrorView::DeviceDetectionFailed { reason },
        Backend::Transfer => ErrorView::TransferFailed { reason },
        Backend::Exec => ErrorView::ExecFailed { reason },
        Backend::PackageManager => ErrorView::PackageManagerFailed { reason },
        Backend::RecordStore => ErrorView::RecordStoreFailed { reason },
    }
}

impl Error {
    /// Wraps what a collaborator reported, word for word, in the failure
    /// variant of that collaborator.
    pub fn backend(origin: Backend, reason: String) -> (e: Error)
        ensures
            e@ == backend_failure(origin, reason@),
    {
        match origin {
            Backend::Detection => Error::DeviceDetectionFailed { reason },
            Backend::Transfer => Error::TransferFailed { reason },
            Backend::Exec => Error::ExecFailed { reason },
            Backend::PackageManager => Error::PackageManagerFailed { reason },
            Backend::RecordStore => Error::RecordStoreFailed { reason },
        }
    }
}

} // verus!
