pub mod annihilation;
