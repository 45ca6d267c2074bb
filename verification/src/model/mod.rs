pub mod channel;
pub mod group;
pub mod im;
pub mod me;
pub mod mpim;
pub mod purpose;
pub mod team;
pub mod topic;
pub mod workspace;

pub use self::channel::Channel;
pub use self::group::Group;
pub use self::im::Im;
pub use self::me::Me;
pub use self::mpim::Mpim;
pub use self::purpose::Purpose;
pub use self::team::Team;
pub use self::topic::Topic;
pub use self::workspace::PingStep;
pub use self::workspace::Workspace;

use vstd::prelude::*;

verus! {

/// A Slack user id, such as `U012AB3CD`.
pub type UserId = String;

/// A Slack timestamp, such as `1355517523.000005`.
pub type Timestamp = String;

} // verus!
