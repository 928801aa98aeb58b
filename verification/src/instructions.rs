pub mod update_threshold;
