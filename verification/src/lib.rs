//! Fixed-timestep loop scheduling: a render phase once per pass, and as many
//! update phases as the elapsed wall-clock time calls for.

pub mod action;
pub mod clock;
pub mod looper;
pub mod per_second;
pub mod realtime;
pub mod run;

pub use action::Action;
pub use looper::Command;
pub use looper::Event;
pub use looper::Looper;
pub use looper::LooperView;
pub use looper::Phase;
pub use looper::Reading;
pub use per_second::PerSecond;
pub use per_second::RateView;
pub use realtime::Backlog;
pub use realtime::ConfigError;
pub use realtime::Realtime;
pub use realtime::RealtimeIter;
pub use run::Turn;
