use eip_protocol::data_type::DataType;
use eip_protocol::eip::check_auto_traits;

#[test]
fn data_type_auto_traits() {
    check_auto_traits::<DataType>();
}
