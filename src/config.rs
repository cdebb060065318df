use vstd::prelude::*;

verus! {

/// Whether an environment variable counts as provided: set and not empty.
pub open spec fn is_provided(value: Option<String>) -> bool {
    value matches Some(v) && v@.len() > 0
}

/// Names of the environment variables that a deploy needs, in the order
/// they are checked.
pub fn required_env_vars() -> (r: Vec<String>)
    ensures
        r@.len() == 3,
        r@[0]@ == "AWS_REGION"@,
        r@[1]@ == "AWS_ACCESS_KEY_ID"@,
        r@[2]@ == "AWS_SECRET_ACCESS_KEY"@,
{
    let mut r: Vec<String> = Vec::new();
    r.push(String::from_str("AWS_REGION"));
    r.push(String::from_str("AWS_ACCESS_KEY_ID"));
    r.push(String::from_str("AWS_SECRET_ACCESS_KEY"));
    r
}

/// Index of the first variable among `values` that is not provided, if any.
pub fn first_missing_var(values: &Vec<Option<String>>) -> (r: Option<usize>)
    ensures
        match r {
            None => forall|i: int| 0 <= i < values@.len() ==> is_provided(#[trigger] values@[i]),
            Some(i) => i < values@.len() && !is_provided(values@[i as int]) && forall|j: int|
                0 <= j < i ==> is_provided(#[trigger] values@[j]),
        },
{
    let n = values.len();
    let mut i: usize = 0;
    while i < n
        invariant
            n == values@.len(),
            i <= n,
            forall|j: int| 0 <= j < i ==> is_provided(#[trigger] values@[j]),
        decreases n - i,
    {
        let provided = match &values[i] {
            Some(v) => v.as_str().unicode_len() > 0,
            None => false,
        };
        if !provided {
            return Some(i);
        }
        i = i + 1;
    }
    None
}

/// The message for a required variable that is not provided.
pub fn missing_var_message(name: &str) -> (r: String)
    ensures
        r@ == "required environment variable "@ + name@ + " not provided"@,
{
    let mut r = String::from_str("required environment variable ");
    r.append(name);
    r.append(" not provided");
    r
}

} // verus!
