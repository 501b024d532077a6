//! Calendar-assistant core: text handling, Google Calendar request and
//! response shaping, OAuth callback parsing, token rules, condensed memory
//! entries and the decisions behind natural-language event editing.

pub mod text;
pub mod condenser;
pub mod oauth;
pub mod dates;
pub mod tokens;
pub mod calendar;
pub mod prompts;
pub mod assistant;
pub mod planner;
