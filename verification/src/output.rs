pub mod csv_printer;
