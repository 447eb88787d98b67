//! Search parameters as they come from and go back to the search form.

pub mod default_search_params;
pub mod search_params;
