use vstd::prelude::*;

use crate::error_format::{ERROR_OPS_DIV_INT, ErrorInfo, Interval, gen_error_info};

verus! {

/// Checks the operands of an integer division: it is refused when either
/// operand is zero; otherwise the left operand is handed back.
pub fn check_division_by_zero_i64(lhs: i64, rhs: i64) -> (r: Result<i64, ErrorInfo>)
    ensures
        r is Ok <==> (lhs != 0 && rhs != 0),
        r matches Ok(v) ==> v == lhs,
        r matches Err(e) ==> e.message@ == ERROR_OPS_DIV_INT@ && e.interval == (Interval { column: 0, line: 0 }),
{
    if lhs == 0 || rhs == 0 {
        return Err(gen_error_info(Interval { column: 0, line: 0 }, ERROR_OPS_DIV_INT.to_owned()));
    }
    Ok(lhs)
}

} // verus!
