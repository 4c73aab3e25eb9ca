pub mod alphabet;
