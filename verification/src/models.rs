pub mod pod;
