pub mod roles;

pub use roles::roles_equal_excluding_observers;
