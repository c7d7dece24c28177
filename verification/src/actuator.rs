pub mod drv8835;
pub mod servo;
