use proc_macro2::{Ident, Span};

#[test]
fn nothing() {
    println!("{}", 1 + 1);
}

#[test]
fn use_proc_macro2() {
    let call_ident = Ident::new("calligraphy", Span::call_site());
    println!("{}", call_ident);
}
