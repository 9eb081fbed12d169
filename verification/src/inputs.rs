pub mod csv_streamer;
