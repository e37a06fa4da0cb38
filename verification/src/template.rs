pub mod template;
