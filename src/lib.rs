//! Skill discovery for an agent platform: candidates found by outside
//! sources are de-duplicated, scored, and turned into skill manifests, with
//! a report of each run. Also the Home Assistant habit analysis and report tool.
pub mod evaluate;
pub mod forge;
pub mod ha_report;
pub mod home_assistant;
pub mod integrate;
pub mod notification;
pub mod scout;
pub mod text;
