use quadigit_phat::{MockDevice, PHat, TransportError};

#[test]
fn print() -> Result<(), TransportError> {
    let mut phat = PHat::new(MockDevice::new());
    phat.print("Test")
}
