use vstd::prelude::*;
use vstd::string::*;

verus! {

/// The states the on-screen pill shows.
#[derive(Debug, Clone, Copy, PartialEq, Eq, Structural)]
pub enum OverlayStatus {
    Recording,
    Processing,
    Error,
    Idle,
}

/// The script run in the overlay window for a status: it sets the pill's
/// class and clears the timing text; an error fades back after three
/// seconds.
pub open spec fn status_js_spec(status: OverlayStatus) -> Seq<char> {
    match status {
        OverlayStatus::Recording => "document.getElementById('pill').className = 'recording'; document.getElementById('timing').textContent = '';"@,
        OverlayStatus::Processing => "document.getElementById('pill').className = 'processing'; document.getElementById('timing').textContent = '';"@,
        OverlayStatus::Error => "document.getElementById('pill').className = 'error'; document.getElementById('timing').textContent = ''; setTimeout(() => document.getElementById('pill').className = '', 3000);"@,
        OverlayStatus::Idle => "document.getElementById('pill').className = ''; document.getElementById('timing').textContent = '';"@,
    }
}

/// The script that shows `status` on the pill.
pub fn overlay_status_js(status: OverlayStatus) -> (r: String)
    ensures
        r@ == status_js_spec(status),
{
    match status {
        OverlayStatus::Recording => String::from_str(
            "document.getElementById('pill').className = 'recording'; document.getElementById('timing').textContent = '';",
        ),
        OverlayStatus::Processing => String::from_str(
            "document.getElementById('pill').className = 'processing'; document.getElementById('timing').textContent = '';",
        ),
        OverlayStatus::Error => String::from_str(
            "document.getElementById('pill').className = 'error'; document.getElementById('timing').textContent = ''; setTimeout(() => document.getElementById('pill').className = '', 3000);",
        ),
        OverlayStatus::Idle => String::from_str(
            "document.getElementById('pill').className = ''; document.getElementById('timing').textContent = '';",
        ),
    }
}

/// The timing label of a finished recording: the device, the recognition
/// time, and the clean-up time or an em dash when clean-up did not run.
pub open spec fn done_label_spec(device: Seq<char>, asr_time: Seq<char>, cleanup_time: Option<Seq<char>>) -> Seq<char> {
    device + " ASR "@ + asr_time + " | LLM "@ + match cleanup_time {
        Some(t) => t,
        None => seq!['\u{2014}'],
    }
}

/// The timing label of a finished recording; the times come formatted.
pub fn done_label(device: &str, asr_time: &str, cleanup_time: Option<&str>) -> (r: String)
    ensures
        r@ == done_label_spec(
            device@,
            asr_time@,
            match cleanup_time {
                Some(t) => Some(t@),
                None => None,
            },
        ),
{
    let llm = match cleanup_time {
        Some(t) => String::from_str(t),
        None => {
            proof {
                reveal_strlit("\u{2014}");
            }
            String::from_str("\u{2014}")
        },
    };
    let r = String::from_str(device).concat(" ASR ").concat(asr_time).concat(" | LLM ").concat(
        llm.as_str(),
    );
    r
}

/// The script that shows a finished recording's timing label on the pill
/// and fades back to idle after five seconds.
pub fn overlay_done_js(label: &str) -> (r: String)
    ensures
        r@ == "document.getElementById('pill').className = 'done'; document.getElementById('timing').textContent = '"@
            + label@
            + "'; setTimeout(() => { document.getElementById('pill').className = ''; document.getElementById('timing').textContent = ''; }, 5000);"@,
{
    String::from_str(
        "document.getElementById('pill').className = 'done'; document.getElementById('timing').textContent = '",
    ).concat(label).concat(
        "'; setTimeout(() => { document.getElementById('pill').className = ''; document.getElementById('timing').textContent = ''; }, 5000);",
    )
}

} // verus!
