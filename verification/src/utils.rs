pub mod nhentai;
