//! Options for parsing, and the names under which a record holds the source
//! of its data.

use vstd::prelude::*;
use vstd::string::StringExecFns;
use crate::text::{decimal, spec_decimal};

verus! {

/// How a buffer of ASTERIX data is to be parsed.
#[derive(Debug, Clone)]
pub struct ParseOptions {
    /// Whether descriptions are added to the items.
    pub verbose: bool,
    /// The one category to keep; all are kept if there is none.
    pub filter_category: Option<u8>,
    /// Most records to parse; no limit if there is none.
    pub max_records: Option<usize>,
}

impl Default for ParseOptions {
    /// Terse output, every category, no limit.
    fn default() -> (options: Self)
        ensures
            !options.verbose,
            options.filter_category.is_none(),
            options.max_records.is_none(),
    {
        ParseOptions { verbose: false, filter_category: None, max_records: None }
    }
}

/// `category` in decimal, with zeros in front to make three digits.
pub open spec fn spec_three_digits(category: u8) -> Seq<char> {
    if category < 10 {
        "00"@ + spec_decimal(category as nat)
    } else if category < 100 {
        "0"@ + spec_decimal(category as nat)
    } else {
        spec_decimal(category as nat)
    }
}

/// The identifier of the item that names the source of a record of
/// `category`: the data source identifier, item 010.
pub open spec fn spec_source_item_id(category: u8) -> Seq<char> {
    "I"@ + spec_three_digits(category) + "/010"@
}

/// The identifier of the data source identifier item of `category`, such as
/// `I048/010`.
pub fn source_item_id(category: u8) -> (id: String)
    ensures
        id@ == spec_source_item_id(category),
{
    let lead = if category < 10 {
        String::from_str("I00")
    } else if category < 100 {
        String::from_str("I0")
    } else {
        String::from_str("I")
    };
    proof {
        reveal_strlit("I00");
        reveal_strlit("I0");
        reveal_strlit("I");
        reveal_strlit("00");
        reveal_strlit("0");
        assert("I00"@ =~= "I"@ + "00"@);
        assert("I0"@ =~= "I"@ + "0"@);
    }
    let id = lead.concat(decimal(category as u64).as_str()).concat("/010");
    assert(id@ =~= spec_source_item_id(category));
    id
}

/// The low eight bits of `value`: the code that a SAC or SIC field stands
/// for.
pub open spec fn spec_code(value: i64) -> u8 {
    (value as int % 256) as u8
}

/// Cuts the value of a SAC or SIC field down to the eight bits of a code.
pub fn code_of(value: i64) -> (code: u8)
    ensures
        code == spec_code(value),
{
    let low: i64 = value & 0xFF;
    assert(0 <= low < 256 && low == value % 256) by (bit_vector)
        requires
            low == value & 0xFF,
    ;
    low as u8
}

} // verus!
