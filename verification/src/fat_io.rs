use vstd::prelude::*;

verus! {

/// The display text of an underlying I/O failure.
///
/// The platform's own error value is opaque here; what the tagging and
/// rendering below read of it is exactly its display text, so that text
/// is what this type carries, as an owned string.
pub struct IoError {
    msg: String,
}

impl View for IoError {
    type V = Seq<char>;

    closed spec fn view(&self) -> Seq<char> {
        self.msg@
    }
}

impl IoError {
    /// Wraps the display text of an I/O failure.
    pub fn new(msg: String) -> (r: IoError)
        ensures
            r@ == msg@,
    {
        IoError { msg }
    }

    /// The text this failure renders to.
    pub fn message(&self) -> (r: &String)
        ensures
            r@ == self@,
    {
        &self.msg
    }
}

/// What a path-tagged failure renders to: the path and the underlying
/// error's text, in one fixed sentence.
pub open spec fn fat_display(file: Seq<char>, err: Seq<char>) -> Seq<char> {
    "Operating on file '"@ + file + "' failed with error "@ + err
}

/// An I/O failure together with the file path the operation was given.
///
/// The path is held as text, converted lossily at the boundary where it
/// was still a platform path, so rendering it can never itself fail.
pub struct FatIOError {
    source: IoError,
    file: String,
}

impl FatIOError {
    /// The underlying failure, unchanged from construction.
    pub closed spec fn source_spec(&self) -> IoError {
        self.source
    }

    /// The path the failed operation was given.
    pub closed spec fn file_spec(&self) -> Seq<char> {
        self.file@
    }

    /// Manually tags an I/O failure with the file it concerned, when the
    /// path is known out-of-band.
    pub fn from_std_io_err(e: IoError, file: String) -> (r: FatIOError)
        ensures
            r.source_spec() == e,
            r.file_spec() == file@,
    {
        FatIOError { source: e, file }
    }

    /// The underlying failure, as the sole cause of this one.
    pub fn source(&self) -> (r: &IoError)
        ensures
            *r == self.source_spec(),
    {
        &self.source
    }

    /// Renders this failure: the fixed sentence of [`fat_display`].
    pub fn display_string(&self) -> (r: String)
        ensures
            r@ == fat_display(self.file_spec(), self.source_spec()@),
    {
        let mut r = "Operating on file '".to_owned();
        r.append(self.file.as_str());
        r.append("' failed with error ");
        r.append(self.source.msg.as_str());
        proof {
            assert(r@ =~= fat_display(self.file_spec(), self.source_spec()@));
        }
        r
    }
}

/// Tags a failed I/O outcome with the path it was about; a successful
/// outcome is returned unchanged.
///
/// This is the whole decision made after a wrapped operation finishes,
/// whether the operation ran synchronously or was awaited.
pub fn tag_io_result<T>(file: String, result: Result<T, IoError>) -> (r: Result<
    T,
    FatIOError,
>)
    ensures
        result is Ok ==> r == Result::<T, FatIOError>::Ok(result->Ok_0),
        result is Err ==> {
            &&& r is Err
            &&& r->Err_0.source_spec() == result->Err_0
            &&& r->Err_0.file_spec() == file@
        },
{
    match result {
        Ok(t) => Ok(t),
        Err(e) => Err(FatIOError { source: e, file }),
    }
}

/// Runs `f` on `path` exactly once, keeping an independent copy of the
/// path taken beforehand; a failure comes back tagged with that copy, a
/// success is handed back unchanged.
pub fn fat_io_wrap_std<T, F: Fn(String) -> Result<T, IoError>>(path: String, f: F) -> (r: Result<
    T,
    FatIOError,
>)
    requires
        call_requires(f, (path,)),
    ensures
        r is Ok ==> call_ensures(f, (path,), Ok(r->Ok_0)),
        r is Err ==> {
            &&& r->Err_0.file_spec() == path@
            &&& call_ensures(f, (path,), Err(r->Err_0.source_spec()))
        },
{
    let path_copy = path.clone();
    let result = f(path);
    tag_io_result(path_copy, result)
}

} // verus!
