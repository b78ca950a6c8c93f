pub mod collapsible_if;
pub mod collapsible_if_else;
pub mod equatable_if_let;
pub mod ifs_same_cond;
