use vstd::prelude::*;

verus! {

/// How an extension hands its search results back to the host.
#[derive(Debug, Clone, Copy, PartialEq, Eq)]
pub enum Transport {
    /// One line of JSON on standard output.
    Stream,
    /// A binary file at a known path, flushed and synced before exit.
    File,
}

/// The transport used on a platform, named as `std::env::consts::OS` names it:
/// the stream on Linux, the file on Windows, none elsewhere.
pub fn transport_for_os(os: &str) -> (r: Option<Transport>)
    ensures
        r == (if os@ == "linux"@ {
            Some(Transport::Stream)
        } else if os@ == "windows"@ {
            Some(Transport::File)
        } else {
            None
        }),
{
    let os = String::from_str(os);
    if os == String::from_str("linux") {
        Some(Transport::Stream)
    } else if os == String::from_str("windows") {
        Some(Transport::File)
    } else {
        None
    }
}

/// What `str::to_lowercase` makes of a text.
pub uninterp spec fn lowercase_of(s: Seq<char>) -> Seq<char>;

/// Relies on `str::to_lowercase`: the result depends on the characters alone.
#[verifier::external_body]
fn lowercase(s: &str) -> (r: String)
    ensures
        r@ == lowercase_of(s@),
{
    s.to_lowercase()
}

/// The session runs on Wayland, given the value of `XDG_SESSION_TYPE`, if set.
pub fn on_wayland(session_type: Option<&str>) -> (r: bool)
    ensures
        r == (session_type is Some && lowercase_of(session_type->0@) == "wayland"@),
{
    match session_type {
        Some(t) => lowercase(t) == String::from_str("wayland"),
        None => false,
    }
}

/// The desktop is Hyprland, given the value of `XDG_CURRENT_DESKTOP`, if set.
pub fn on_hyprland(current_desktop: Option<&str>) -> (r: bool)
    ensures
        r == (current_desktop is Some && lowercase_of(current_desktop->0@) == "hyprland"@),
{
    match current_desktop {
        Some(d) => lowercase(d) == String::from_str("hyprland"),
        None => false,
    }
}

} // verus!
