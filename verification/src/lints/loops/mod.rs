pub mod loop_for_while;
