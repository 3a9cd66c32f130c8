pub mod rv32ui;
