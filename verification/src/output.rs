//! Output filter: decides, per probe result, whether it passes the
//! configured status-code policy, and renders the line to print.

use crate::structs::{HttpData, LibOptions};
use crate::text::{dec_str, split_commas, split_on_commas, to_decimal};
use vstd::prelude::*;
use vstd::string::StringExecFns;

verus! {

/// The text of a configured status-code list: an absent list reads as
/// the empty text, meaning no restriction.
pub open spec fn list_view(o: Option<String>) -> Seq<char> {
    match o {
        Some(s) => s@,
        None => Seq::<char>::empty(),
    }
}

/// Whether a comma-separated list contains the decimal text of a status
/// code as one of its pieces.
pub open spec fn in_code_list(list: Seq<char>, code: u16) -> bool {
    split_commas(list).contains(dec_str(code as nat))
}

/// Whether a status code passes the filter and exclude lists: the
/// filter list is empty or names the code, and the exclude list is
/// empty or does not.
pub open spec fn allowed_by_filters(code: u16, filter_list: Seq<char>, exclude_list: Seq<char>) -> bool {
    (filter_list.len() == 0 || in_code_list(filter_list, code)) && (exclude_list.len() == 0
        || !in_code_list(exclude_list, code))
}

/// Whether a probe result is printed: never when quiet, never for a
/// host that was not reached, and otherwise per the status-code policy.
pub open spec fn spec_should_print(data: HttpData, options: LibOptions) -> bool {
    &&& !options.quiet_flag
    &&& data.final_url@.len() > 0
    &&& allowed_by_filters(
        data.status_code,
        list_view(options.filter_codes),
        list_view(options.exclude_codes),
    )
}

/// Whether a comma-separated list names a status code, compared as
/// decimal text, piece by piece.
pub fn code_in_list(list: &str, code: u16) -> (r: bool)
    ensures
        r == in_code_list(list@, code),
{
    let pieces = split_on_commas(list);
    let needle = to_decimal(code as u64);
    let mut i: usize = 0;
    let ghost views = pieces@.map_values(|t: String| t@);
    while i < pieces.len()
        invariant
            i <= pieces@.len(),
            views == pieces@.map_values(|t: String| t@),
            views == split_commas(list@),
            needle@ == dec_str(code as nat),
            forall|j: int| 0 <= j < i ==> views[j] != needle@,
        decreases pieces@.len() - i,
    {
        if pieces[i].eq(&needle) {
            proof {
                assert(views[i as int] == needle@);
            }
            return true;
        }
        i = i + 1;
    }
    proof {
        if split_commas(list@).contains(dec_str(code as nat)) {
            let j = choose|j: int|
                0 <= j < views.len() && views[j] == dec_str(code as nat);
            assert(views[j] != needle@);
        }
    }
    false
}

/// Decides whether one finished probe result is printed under the
/// configured policy.
pub fn should_print(data: &HttpData, options: &LibOptions) -> (r: bool)
    ensures
        r == spec_should_print(*data, *options),
{
    if options.quiet_flag {
        return false;
    }
    if data.final_url.as_str().is_empty() {
        return false;
    }
    let filter_ok = match &options.filter_codes {
        Some(list) => {
            if list.as_str().is_empty() {
                true
            } else {
                code_in_list(list.as_str(), data.status_code)
            }
        },
        None => true,
    };
    if !filter_ok {
        return false;
    }
    match &options.exclude_codes {
        Some(list) => {
            if list.as_str().is_empty() {
                true
            } else {
                !code_in_list(list.as_str(), data.status_code)
            }
        },
        None => true,
    }
}

/// Renders the line printed for one result: `host,[final_url],[code]`
/// in full-data mode, `scheme://host` otherwise.
pub fn render_line(data: &HttpData, show_full_data: bool) -> (r: String)
    ensures
        show_full_data ==> r@ == data.checked_host@ + ",["@ + data.final_url@ + "],["@ + dec_str(
            data.status_code as nat,
        ) + "]"@,
        !show_full_data ==> r@ == data.protocol@ + "://"@ + data.checked_host@,
{
    if show_full_data {
        let mut line = data.checked_host.clone();
        line.append(",[");
        line.append(data.final_url.as_str());
        line.append("],[");
        let code = to_decimal(data.status_code as u64);
        line.append(code.as_str());
        line.append("]");
        line
    } else {
        let mut line = data.protocol.clone();
        line.append("://");
        line.append(data.checked_host.as_str());
        line
    }
}

} // verus!
