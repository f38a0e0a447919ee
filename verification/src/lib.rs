pub mod classifier;
pub mod config;
pub mod events;
pub mod laws;
pub mod ras1_strategy;
pub mod strategy;
pub mod targets;

pub use classifier::BarType;
pub use config::RAS1Config;
pub use config::RAS1Thresholds;
pub use config::TradingMode;
pub use events::Bar;
pub use events::MarketEvent;
pub use events::Trade;
pub use ras1_strategy::RAS1Strategy;
pub use strategy::Signal;
pub use strategy::SignalType;
pub use strategy::Strategy;
