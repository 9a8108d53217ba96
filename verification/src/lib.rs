pub mod coordinate;
pub mod fetch;
pub mod normalize;
pub mod occupations;
pub mod records;
pub mod regions;
pub mod search;
pub mod store;
pub mod strmatch;
pub mod timefmt;
pub mod users;
