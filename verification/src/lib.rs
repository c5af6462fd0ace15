pub mod aircraft;
pub mod arguments;
pub mod armament;
pub mod armor;
pub mod classes;
pub mod colors;
pub mod common_record;
pub mod defines;
pub mod directive;
pub mod layout;
pub mod limber;
pub mod machine_guns;
pub mod malfunction;
pub mod metrics;
pub mod movement;
pub mod ordnance;
pub mod overrides;
pub mod pattern;
pub mod rows;
pub mod scan;
pub mod support;
pub mod tags;
pub mod text;
pub mod text_field;
pub mod transport;
pub mod turret;
pub mod utils;
pub mod vehicle;
