//! Two small verified utilities around a version-control library and a
//! calendar library: resolving a repository's HEAD reference down to the
//! commit it ultimately points at, and turning a Unix epoch second into a
//! wall-clock timestamp at the fixed offset UTC+8.

pub mod git;
pub mod time;
