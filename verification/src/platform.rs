use vstd::prelude::*;
use crate::config::{opt_view, clone_string};
use crate::macos::Destination;
use crate::outside::{from_utf8_lossy, utf8_lossy};
use crate::text::{owned, append_str};

verus! {

// ---------------------------------------------------------------------------
// Shared printer records
// ---------------------------------------------------------------------------

/// The operating system the application runs on.
pub enum Platform {
    Windows,
    MacOs,
    Other,
}

/// A printer with its port, driver, comment and location.
pub struct DetailedPrinterInfo {
    pub name: String,
    pub port_name: Option<String>,
    pub driver_name: Option<String>,
    pub comment: Option<String>,
    pub location: Option<String>,
}

/// An installed printer as the front end detects it.
pub struct PrinterDetectEntry {
    pub installed_key: String,
    pub system_queue_name: String,
    pub display_name: Option<String>,
    pub device_uri: Option<String>,
    pub is_accepting_jobs: Option<bool>,
    pub state: Option<i32>,
    pub platform: String,
}

/// What one platform reports of a printer deletion.
pub struct DeletePrinterResultInternal {
    pub success: bool,
    pub removed_queue: bool,
    pub removed_port: bool,
    pub removed_driver: bool,
    pub driver_name: Option<String>,
    pub port_name: Option<String>,
    pub message: String,
    pub evidence: Option<String>,
}

/// A printer deletion as the front end sees it.
pub struct DeletePrinterResult {
    pub success: bool,
    pub printer_name: String,
    pub removed_queue: bool,
    pub removed_port: bool,
    pub removed_driver: bool,
    pub driver_name: Option<String>,
    pub port_name: Option<String>,
    pub message: String,
    pub evidence: Option<String>,
}

/// The message for a platform other than Windows and macOS.
pub open spec fn unsupported_platform_message() -> Seq<char> {
    "当前仅支持 Windows 和 macOS 平台"@
}

fn unsupported_platform() -> (r: String)
    ensures
        r@ == unsupported_platform_message(),
{
    owned("当前仅支持 Windows 和 macOS 平台")
}

// ---------------------------------------------------------------------------
// Listing printers
// ---------------------------------------------------------------------------

/// What the platform listing gave.
pub enum PrinterListing {
    Windows(Vec<String>),
    MacOs(Vec<Destination>),
    Unsupported,
}

/// A Windows printer name as an entry: the name is key, queue and display
/// name.
pub open spec fn windows_entry_ok(e: PrinterDetectEntry, name: String) -> bool {
    &&& e.installed_key@ == name@
    &&& e.system_queue_name@ == name@
    &&& opt_view(e.display_name) == Some(name@)
    &&& e.device_uri is None
    &&& e.is_accepting_jobs is None
    &&& e.state is None
    &&& e.platform@ == "windows"@
}

/// A macOS destination as an entry: its name is key and queue name.
pub open spec fn macos_entry_ok(e: PrinterDetectEntry, d: Destination) -> bool {
    &&& e.installed_key@ == d.name@
    &&& e.system_queue_name@ == d.name@
    &&& opt_view(e.display_name) == opt_view(d.display_name)
    &&& opt_view(e.device_uri) == opt_view(d.device_uri)
    &&& e.is_accepting_jobs == d.is_accepting_jobs
    &&& e.state == d.state
    &&& e.platform@ == "macos"@
}

/// The installed printers as entries for the front end, one per printer
/// the platform listed, in its order; an error of the listing is passed
/// on.
pub fn list_printers(listing: Result<PrinterListing, String>) -> (r: Result<
    Vec<PrinterDetectEntry>,
    String,
>)
    ensures
        match listing {
            Err(e) => r == Err::<Vec<PrinterDetectEntry>, String>(e),
            Ok(PrinterListing::Unsupported) => r matches Err(e) && e@ == unsupported_platform_message(),
            Ok(PrinterListing::Windows(names)) => r matches Ok(v) && v@.len() == names@.len() && forall|i: int|
                0 <= i < names@.len() ==> windows_entry_ok(#[trigger] v@[i], names@[i]),
            Ok(PrinterListing::MacOs(dests)) => r matches Ok(v) && v@.len() == dests@.len() && forall|i: int|
                0 <= i < dests@.len() ==> macos_entry_ok(#[trigger] v@[i], dests@[i]),
        },
{
    match listing {
        Err(e) => Err(e),
        Ok(PrinterListing::Unsupported) => Err(unsupported_platform()),
        Ok(PrinterListing::Windows(names)) => {
            let mut v: Vec<PrinterDetectEntry> = Vec::new();
            let mut i: usize = 0;
            while i < names.len()
                invariant
                    i <= names@.len(),
                    v@.len() == i,
                    forall|j: int| 0 <= j < i ==> windows_entry_ok(#[trigger] v@[j], names@[j]),
                decreases names@.len() - i,
            {
                let n = &names[i];
                v.push(
                    PrinterDetectEntry {
                        installed_key: clone_string(n),
                        system_queue_name: clone_string(n),
                        display_name: Some(clone_string(n)),
                        device_uri: None,
                        is_accepting_jobs: None,
                        state: None,
                        platform: owned("windows"),
                    },
                );
                i = i + 1;
            }
            Ok(v)
        },
        Ok(PrinterListing::MacOs(dests)) => {
            let mut v: Vec<PrinterDetectEntry> = Vec::new();
            let mut i: usize = 0;
            while i < dests.len()
                invariant
                    i <= dests@.len(),
                    v@.len() == i,
                    forall|j: int| 0 <= j < i ==> macos_entry_ok(#[trigger] v@[j], dests@[j]),
                decreases dests@.len() - i,
            {
                let d = &dests[i];
                v.push(
                    PrinterDetectEntry {
                        installed_key: clone_string(&d.name),
                        system_queue_name: clone_string(&d.name),
                        display_name: crate::config::clone_opt_string(&d.display_name),
                        device_uri: crate::config::clone_opt_string(&d.device_uri),
                        is_accepting_jobs: d.is_accepting_jobs,
                        state: d.state,
                        platform: owned("macos"),
                    },
                );
                i = i + 1;
            }
            Ok(v)
        },
    }
}

/// The detailed printer list: on Windows what the listing gave; macOS does
/// not offer it; other platforms are not supported.
pub fn list_printers_detailed(platform: Platform, windows_listing: Result<
    Vec<DetailedPrinterInfo>,
    String,
>) -> (r: Result<Vec<DetailedPrinterInfo>, String>)
    ensures
        match platform {
            Platform::Windows => r == windows_listing,
            Platform::MacOs => r matches Err(e) && e@ == "macOS 平台暂不支持该功能"@,
            Platform::Other => r matches Err(e) && e@ == unsupported_platform_message(),
        },
{
    match platform {
        Platform::Windows => windows_listing,
        Platform::MacOs => Err(owned("macOS 平台暂不支持该功能")),
        Platform::Other => Err(unsupported_platform()),
    }
}

// ---------------------------------------------------------------------------
// Program output off Windows
// ---------------------------------------------------------------------------

/// Output of a program decoded where Windows code pages do not apply:
/// leniently as UTF-8, each invalid sequence becoming U+FFFD. (On Windows,
/// `command::decode_windows_string` also tries GBK.)
pub fn decode_windows_string(bytes: &[u8]) -> (r: String)
    ensures
        r@ == utf8_lossy(bytes@),
{
    from_utf8_lossy(bytes)
}

// ---------------------------------------------------------------------------
// Opening a link
// ---------------------------------------------------------------------------

/// The program and arguments that open a link: `cmd /C start "" <url>` on
/// Windows, `open <url>` on macOS; none elsewhere.
pub open spec fn spec_open_url_command(platform: Platform, url: Seq<char>) -> Option<
    (Seq<char>, Seq<Seq<char>>),
> {
    match platform {
        Platform::Windows => Some(("cmd"@, seq!["/C"@, "start"@, ""@, url])),
        Platform::MacOs => Some(("open"@, seq![url])),
        Platform::Other => None,
    }
}

pub fn open_url_command(platform: Platform, url: &str) -> (r: Option<(String, Vec<String>)>)
    ensures
        match r {
            Some(c) => spec_open_url_command(platform, url@) == Some(
                (c.0@, c.1@.map_values(|s: String| s@)),
            ),
            None => spec_open_url_command(platform, url@) is None,
        },
{
    match platform {
        Platform::Windows => {
            let args: Vec<String> = vec![owned("/C"), owned("start"), owned(""), owned(url)];
            assert(args@.map_values(|s: String| s@) =~= seq!["/C"@, "start"@, ""@, url@]);
            Some((owned("cmd"), args))
        },
        Platform::MacOs => {
            let args: Vec<String> = vec![owned(url)];
            assert(args@.map_values(|s: String| s@) =~= seq![url@]);
            Some((owned("open"), args))
        },
        Platform::Other => None,
    }
}

/// The outcome of the command that opened a link: exit status success is
/// `Ok`; otherwise the error output, decoded leniently, after
/// `无法打开 URL: `.
pub fn open_url_windows(success: bool, stderr: &[u8]) -> (r: Result<(), String>)
    ensures
        success ==> r is Ok,
        !success ==> (r matches Err(e) && e@ == "无法打开 URL: "@ + utf8_lossy(stderr@)),
{
    if success {
        Ok(())
    } else {
        let mut m = owned("无法打开 URL: ");
        append_str(&mut m, from_utf8_lossy(stderr).as_str());
        Err(m)
    }
}

/// Opening a link on the current platform, given how the command went
/// (`None` where no command is run; an error where it could not be
/// started).
pub fn open_url(platform: Platform, run: Option<Result<(bool, Vec<u8>), String>>) -> (r: Result<
    (),
    String,
>)
    ensures
        match platform {
            Platform::Other => r matches Err(e) && e@ == unsupported_platform_message(),
            _ => match run {
                Some(Ok((success, stderr))) => if success {
                    r is Ok
                } else {
                    r matches Err(e) && e@ == "无法打开 URL: "@ + utf8_lossy(stderr@)
                },
                Some(Err(e)) => r == Err::<(), String>(e),
                None => r matches Err(e) && e@ == unsupported_platform_message(),
            },
        },
{
    match platform {
        Platform::Other => Err(unsupported_platform()),
        _ => match run {
            Some(Ok((success, stderr))) => open_url_windows(success, stderr.as_slice()),
            Some(Err(e)) => Err(e),
            None => Err(unsupported_platform()),
        },
    }
}

// ---------------------------------------------------------------------------
// Deleting a printer
// ---------------------------------------------------------------------------

/// The deletion as the front end sees it: on Windows the platform result
/// with the printer's name; on macOS the same without driver or port
/// (macOS removes neither); an error is passed on; other platforms are not
/// supported.
pub fn delete_printer(
    platform: Platform,
    printer_name: &str,
    outcome: Result<DeletePrinterResultInternal, String>,
) -> (r: Result<DeletePrinterResult, String>)
    ensures
        match platform {
            Platform::Other => r matches Err(e) && e@ == unsupported_platform_message(),
            _ => match outcome {
                Err(e) => r == Err::<DeletePrinterResult, String>(e),
                Ok(o) => r matches Ok(d) && {
                    &&& d.success == o.success
                    &&& d.printer_name@ == printer_name@
                    &&& d.removed_queue == o.removed_queue
                    &&& d.removed_port == o.removed_port
                    &&& d.message == o.message
                    &&& d.evidence == o.evidence
                    &&& (platform is Windows ==> {
                        &&& d.removed_driver == o.removed_driver
                        &&& d.driver_name == o.driver_name
                        &&& d.port_name == o.port_name
                    })
                    &&& (platform is MacOs ==> {
                        &&& !d.removed_driver
                        &&& d.driver_name is None
                        &&& d.port_name is None
                    })
                },
            },
        },
{
    match platform {
        Platform::Other => Err(unsupported_platform()),
        Platform::Windows => match outcome {
            Err(e) => Err(e),
            Ok(o) => Ok(
                DeletePrinterResult {
                    success: o.success,
                    printer_name: owned(printer_name),
                    removed_queue: o.removed_queue,
                    removed_port: o.removed_port,
                    removed_driver: o.removed_driver,
                    driver_name: o.driver_name,
                    port_name: o.port_name,
                    message: o.message,
                    evidence: o.evidence,
                },
            ),
        },
        Platform::MacOs => match outcome {
            Err(e) => Err(e),
            Ok(o) => Ok(
                DeletePrinterResult {
                    success: o.success,
                    printer_name: owned(printer_name),
                    removed_queue: o.removed_queue,
                    removed_port: o.removed_port,
                    removed_driver: false,
                    driver_name: None,
                    port_name: None,
                    message: o.message,
                    evidence: o.evidence,
                },
            ),
        },
    }
}

} // verus!
