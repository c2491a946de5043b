//! The access-log configuration. The log middleware itself belongs to the
//! HTTP front door; the pattern it is built with is fixed here.

use vstd::prelude::*;

verus! {

/// Marker for the access-log configuration of the HTTP front door.
pub struct Logger;

impl Logger {
    /// The fixed access-log line pattern the front door installs.
    pub fn format_pattern() -> (r: &'static str)
        ensures
            r@ == "%a '%r' %s %b '%{Referer}i' '%{User-Agent}i' %T"@,
    {
        "%a '%r' %s %b '%{Referer}i' '%{User-Agent}i' %T"
    }
}

} // verus!
