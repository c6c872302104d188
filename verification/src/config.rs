//! The extension configuration the v3 API serves.
use vstd::prelude::*;
use crate::error::{api_error, ApiError, ApiErrorCode, StatusCode};
use crate::text::{chars_of, same_text};

verus! {

/// The configuration of the stable extension, as JSON text.
pub const EXTENSION_CONFIG: &'static str = r#"{"version":"3.0.9","overrides":[],"compatibility":[{"id":["ajopnjidmegmdimjlfnijceegpefgped","firefox@betterttv.net"],"issues":[{"platform":null,"severity":"NOTE","message":"7TV supports BetterTTV emotes by default"},{"platform":null,"severity":"DUPLICATE_FUNCTIONALITY","message":"A significant amount of functionality from this extension is also in 7TV. While there is no known immediate clashing with this extension, such redundancy may decrease performance"}]},{"id":["fadndhdgpmmaapbmfcknlfgcflmmmieb","frankerfacez@frankerfacez.com"],"issues":[{"platform":null,"severity":"NOTE","message":"7TV supports FrankerFaceZ emotes by default. This extension is compatibility-tested by our team. However, many of its features may currently be unavailable. We are working on improving integration."}]},{"id":["fooolghllnmhmmndgjiamiiodkpenpbb"],"issues":[{"platform":null,"severity":"BAD_PERFORMANCE","message":"This extension attempts to hook the chat input box, which is partially prevented by 7TV. This leads to severe lag spikes. Please consider switching to a different password manager"},{"platform":null,"severity":"WARNING","message":"Our analysis of this extension revealed that it's highly obfuscated and appears to be extremely inefficient"}]},{"id":["ipnllhnoiiclnoonckahfcpahgehgdgb"],"issues":[{"platform":null,"severity":"CLASHING","message":"This extension is wholly incompatible with 7TV's high-performance chat and breaks layout"}]},{"id":["bhplkbgoehhhddaoolmakpocnenplmhf","twitch5@coolcmd"],"issues":[{"platform":null,"severity":"WARNING","message":"7TV cannot function with this extension because it runs inside its own isolated context. Please disable it."}]}]}"#;

/// The configuration of the nightly extension, as JSON text.
pub const EXTENSION_NIGHTLY_CONFIG: &'static str = r#"{"version":"3.0.10.1000","overrides":[],"compatibility":[{"id":["ajopnjidmegmdimjlfnijceegpefgped","firefox@betterttv.net"],"issues":[{"platform":null,"severity":"NOTE","message":"7TV supports BetterTTV emotes by default"},{"platform":null,"severity":"DUPLICATE_FUNCTIONALITY","message":"A significant amount of functionality from this extension is also in 7TV. While there is no known immediate clashing with this extension, such redundancy may decrease performance"}]},{"id":["fadndhdgpmmaapbmfcknlfgcflmmmieb","frankerfacez@frankerfacez.com"],"issues":[{"platform":null,"severity":"NOTE","message":"7TV supports FrankerFaceZ emotes by default. This extension is compatibility-tested by our team. However, many of its features may currently be unavailable. We are working on improving integration."},{"platform":null,"severity":"WARNING","message":"There may currently be some odd behaviors when using this extension alongside 7TV whilst acting as a Moderator"}]},{"id":["fooolghllnmhmmndgjiamiiodkpenpbb"],"issues":[{"platform":null,"severity":"BAD_PERFORMANCE","message":"This extension attempts to hook the chat input box, which is partially prevented by 7TV. This leads to severe lag spikes. Please consider switching to a different password manager"},{"platform":null,"severity":"WARNING","message":"Our analysis of this extension revealed that it's highly obfuscated and appears to be extremely inefficient"}]},{"id":["ipnllhnoiiclnoonckahfcpahgehgdgb"],"issues":[{"platform":null,"severity":"CLASHING","message":"This extension is wholly incompatible with 7TV's high-performance chat and breaks layout"}]},{"id":["bhplkbgoehhhddaoolmakpocnenplmhf","twitch5@coolcmd"],"issues":[{"platform":null,"severity":"WARNING","message":"7TV cannot function with this extension because it runs inside its own isolated context. Please disable it."}]}]}"#;

pub open spec fn config_not_found() -> ApiError {
    api_error(StatusCode::NotFound, ApiErrorCode::Unknown, "not found")
}

/// The configuration served for an extension name: `extension` and
/// `extension-nightly` have one; other names are not found.
pub fn get_extension_config(name: &str) -> (r: Result<&'static str, ApiError>)
    ensures
        r == (if name@ == "extension"@ {
            Ok::<&'static str, ApiError>(EXTENSION_CONFIG)
        } else if name@ == "extension-nightly"@ {
            Ok(EXTENSION_NIGHTLY_CONFIG)
        } else {
            Err(config_not_found())
        }),
{
    let n = chars_of(name);
    if same_text(&n, &chars_of("extension")) {
        Ok(EXTENSION_CONFIG)
    } else if same_text(&n, &chars_of("extension-nightly")) {
        Ok(EXTENSION_NIGHTLY_CONFIG)
    } else {
        Err(ApiError::not_found(ApiErrorCode::Unknown, "not found"))
    }
}

} // verus!
