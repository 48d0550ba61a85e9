use vstd::prelude::*;

verus! {

/// The kind of a download failure, with the diagnostic message stripped off.
#[derive(Clone, Copy, Debug, PartialEq, Eq, Structural)]
pub enum ErrorKind {
    /// The service reported that the object or bucket does not exist.
    NotFound,
    /// The service reported an authorization failure.
    AccessDenied,
    /// Any other non-success response from the service.
    Service,
    /// The destination file could not be created or written.
    Io,
    /// The response body stream itself failed mid-transfer.
    Stream,
}

/// Mathematical picture of a `DownloadError`: the kind together with the
/// diagnostic message, where one is carried.
pub enum ErrorView {
    NotFound,
    AccessDenied,
    Service { message: Seq<char> },
    Io { message: Seq<char> },
    Stream { message: Seq<char> },
}

impl ErrorView {
    pub open spec fn kind(self) -> ErrorKind {
        match self {
            ErrorView::NotFound => ErrorKind::NotFound,
            ErrorView::AccessDenied => ErrorKind::AccessDenied,
            ErrorView::Service { .. } => ErrorKind::Service,
            ErrorView::Io { .. } => ErrorKind::Io,
            ErrorView::Stream { .. } => ErrorKind::Stream,
        }
    }

    /// The fixed context line that accompanies each kind of failure.
    pub open spec fn context_line(self) -> Seq<char> {
        match self {
            ErrorView::NotFound => "the requested object was not found"@,
            ErrorView::AccessDenied => "access to the requested object was denied"@,
            ErrorView::Service { .. } => "failed to get response from the service"@,
            ErrorView::Io { .. } => "failed to create or write the destination file"@,
            ErrorView::Stream { .. } => "the response body stream failed mid-transfer"@,
        }
    }
}

/// Why a single download operation failed. Every failure is fatal to the
/// operation: nothing is retried or recovered.
#[derive(Debug, Clone)]
pub enum DownloadError {
    /// The service reported that the object or bucket does not exist.
    NotFound,
    /// The service reported an authorization failure.
    AccessDenied,
    /// Any other non-success response, carrying the service's diagnostic message.
    Service { message: String },
    /// The destination file could not be created, or a write to it failed.
    Io { message: String },
    /// The body stream errored mid-transfer (for example, a connection reset).
    Stream { message: String },
}

impl View for DownloadError {
    type V = ErrorView;

    open spec fn view(&self) -> ErrorView {
        match self {
            DownloadError::NotFound => ErrorView::NotFound,
            DownloadError::AccessDenied => ErrorView::AccessDenied,
            DownloadError::Service { message } => ErrorView::Service { message: message@ },
            DownloadError::Io { message } => ErrorView::Io { message: message@ },
            DownloadError::Stream { message } => ErrorView::Stream { message: message@ },
        }
    }
}

impl DownloadError {
    /// The kind of this failure.
    pub fn kind(&self) -> (k: ErrorKind)
        ensures
            k == self@.kind(),
    {
        match self {
            DownloadError::NotFound => ErrorKind::NotFound,
            DownloadError::AccessDenied => ErrorKind::AccessDenied,
            DownloadError::Service { .. } => ErrorKind::Service,
            DownloadError::Io { .. } => ErrorKind::Io,
            DownloadError::Stream { .. } => ErrorKind::Stream,
        }
    }

    /// A fixed human-readable line saying which step failed.
    pub fn context_line(&self) -> (r: &'static str)
        ensures
            r@ == self@.context_line(),
    {
        match self {
            DownloadError::NotFound => "the requested object was not found",
            DownloadError::AccessDenied => "access to the requested object was denied",
            DownloadError::Service { .. } => "failed to get response from the service",
            DownloadError::Io { .. } => "failed to create or write the destination file",
            DownloadError::Stream { .. } => "the response body stream failed mid-transfer",
        }
    }

    /// The diagnostic message carried with the failure, where one is.
    pub fn message(&self) -> (r: &str)
        ensures
            match self@ {
                ErrorView::Service { message } => r@ == message,
                ErrorView::Io { message } => r@ == message,
                ErrorView::Stream { message } => r@ == message,
                _ => r@ == Seq::<char>::empty(),
            },
    {
        proof {
            reveal_strlit("");
        }
        match self {
            DownloadError::NotFound => "",
            DownloadError::AccessDenied => "",
            DownloadError::Service { message } => message.as_str(),
            DownloadError::Io { message } => message.as_str(),
            DownloadError::Stream { message } => message.as_str(),
        }
    }
}

} // verus!
