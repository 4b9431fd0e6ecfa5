//! Verified construction of the three request URLs the bot uses: the sync
//! long-poll URL (with the filter, the fixed server-side timeout, and the
//! cursor when one is held), the notice-send URL, and the raw-file URLs of
//! the checksum targets.
//!
//! The URL strings are built and specified character-exactly here; validating
//! them as absolute URLs is delegated to the `url` crate behind a trusted
//! wrapper.

use vstd::prelude::*;
use vstd::string::StrSliceExecFns;
use vstd::string::StringExecFns;

use crate::errors::Error;
use crate::json::filter_json;
use crate::json::spec_filter_json;

verus! {

/// The decimal digit character for a value below ten.
pub open spec fn dec_digit_char(n: nat) -> char {
    if n == 0 {
        '0'
    } else if n == 1 {
        '1'
    } else if n == 2 {
        '2'
    } else if n == 3 {
        '3'
    } else if n == 4 {
        '4'
    } else if n == 5 {
        '5'
    } else if n == 6 {
        '6'
    } else if n == 7 {
        '7'
    } else if n == 8 {
        '8'
    } else {
        '9'
    }
}

/// The usual decimal notation of a natural number: no sign, no leading
/// zeroes except for the number zero itself.
pub open spec fn dec_digits(n: nat) -> Seq<char>
    decreases n,
{
    if n < 10 {
        seq![dec_digit_char(n)]
    } else {
        dec_digits(n / 10) + seq![dec_digit_char(n % 10)]
    }
}

/// Format a number in decimal.
pub fn u64_to_dec(n: u64) -> (r: String)
    ensures
        r@ == dec_digits(n as nat),
    decreases n,
{
    let digits = "0123456789";
    if n < 10 {
        proof {
            reveal_strlit("0123456789");
        }
        let d = digits.substring_char(n as usize, n as usize + 1);
        proof {
            assert(d@ =~= seq![dec_digit_char(n as nat)]);
        }
        String::from_str(d)
    } else {
        let mut r = u64_to_dec(n / 10);
        proof {
            reveal_strlit("0123456789");
        }
        let m = n % 10;
        let d = digits.substring_char(m as usize, m as usize + 1);
        proof {
            assert(d@ =~= seq![dec_digit_char((n % 10) as nat)]);
        }
        r.append(d);
        r
    }
}

/// The sync URL without a cursor: scheme and host, the sync endpoint, the
/// JSON filter, and the fixed 30-second long-poll timeout.
pub open spec fn spec_sync_base_url(host: Seq<char>, room_id: Seq<char>) -> Seq<char> {
    "https://"@ + host + "/_matrix/client/v3/sync?filter="@ + spec_filter_json(room_id)
        + "&timeout=30000"@
}

/// The sync URL for one poll: the base URL, plus a `since` parameter exactly
/// when a cursor is held. The empty cursor means "from the beginning" and is
/// omitted.
pub open spec fn spec_sync_url(host: Seq<char>, room_id: Seq<char>, cursor: Seq<char>) -> Seq<
    char,
> {
    if cursor.len() == 0 {
        spec_sync_base_url(host, room_id)
    } else {
        spec_sync_base_url(host, room_id) + "&since="@ + cursor
    }
}

/// Build the sync URL for one poll request.
pub fn sync_url(host: &str, room_id: &str, cursor: &str) -> (r: String)
    ensures
        r@ == spec_sync_url(host@, room_id@, cursor@),
{
    let mut out = String::from_str("https://");
    out.append(host);
    out.append("/_matrix/client/v3/sync?filter=");
    let filter = filter_json(room_id);
    out.append(filter.as_str());
    out.append("&timeout=30000");
    proof {
        assert(out@ =~= spec_sync_base_url(host@, room_id@));
    }
    if !cursor.is_empty() {
        out.append("&since=");
        out.append(cursor);
        proof {
            assert(out@ =~= spec_sync_url(host@, room_id@, cursor@));
        }
    }
    out
}

/// The URL an outgoing notice is sent to: the room's send endpoint with a
/// per-request transaction id.
pub open spec fn spec_send_url(host: Seq<char>, room_id: Seq<char>, txn_id: nat) -> Seq<char> {
    "https://"@ + host + "/_matrix/client/v3/rooms/"@ + room_id + "/send/m.room.message/"@
        + dec_digits(txn_id)
}

/// Build the URL an outgoing notice is sent to. The transaction id only has
/// to be unique enough to avoid accidental de-duplication by the backend;
/// the caller passes a timestamp in milliseconds.
pub fn send_url(host: &str, room_id: &str, txn_id: u64) -> (r: String)
    ensures
        r@ == spec_send_url(host@, room_id@, txn_id as nat),
{
    let mut out = String::from_str("https://");
    out.append(host);
    out.append("/_matrix/client/v3/rooms/");
    out.append(room_id);
    out.append("/send/m.room.message/");
    let txn = u64_to_dec(txn_id);
    out.append(txn.as_str());
    proof {
        assert(out@ =~= spec_send_url(host@, room_id@, txn_id as nat));
    }
    out
}

#[verifier::external_type_specification]
#[verifier::external_body]
pub struct ExUrl(url::Url);

/// Relies on `url::Url::parse`: validates an absolute URL string, returning
/// the parsed URL or a parse error rendered as text.
#[verifier::external_body]
fn parse_url_raw(s: &str) -> Result<url::Url, String> {
    url::Url::parse(s).map_err(|e| e.to_string())
}

/// Validate a request URL built by this crate. Validation itself is the
/// `url` crate's judgement; this function pins down only how a rejection is
/// classified: always as a URL-parse error, never as any other kind.
pub fn parse_request_url(s: &str) -> (r: Result<url::Url, Error>)
    ensures
        r matches Err(e) ==> e is UrlParse,
{
    match parse_url_raw(s) {
        Ok(u) => Ok(u),
        Err(msg) => Err(Error::UrlParse(msg)),
    }
}

} // verus!
