//! The bot's configuration, read from the values of its environment variables.

use vstd::prelude::*;

use crate::text::{parse_u64, parse_u64_spec};

verus! {

/// The bot's configuration.
pub struct MelConfig;

/// The command prefix used where no guild sets its own.
pub open spec fn fallback_prefix() -> Seq<char> {
    "f!"@
}

impl MelConfig {
    /// The default command prefix: the value of `BOT_PREFIX` where it is set,
    /// else `f!`.
    pub fn default_prefix_from(bot_prefix: Option<String>) -> (r: String)
        ensures
            r@ == match bot_prefix {
                Some(p) => p@,
                None => fallback_prefix(),
            },
    {
        match bot_prefix {
            Some(p) => p,
            None => String::from_str("f!"),
        }
    }

    /// The bot's own user id, read from the value of `BOT_ID` as a `u64`;
    /// `None` where that value is no such number.
    pub fn id_mention_from(bot_id: &str) -> (r: Option<u64>)
        ensures
            r == parse_u64_spec(bot_id@),
    {
        parse_u64(bot_id)
    }
}

} // verus!
