//! The client of a control plane: one instance, and the rules authored for
//! it.

use crate::interchange::{InstallError, InstallResponse, InstanceId, InstanceResponse, WhenRules};
use crate::network_client::ClientNetworkError;
use crate::shared_client::{no_constraints, ClientError, MockBuilder, MockClient, WhenBuilder};
use vstd::prelude::*;
use vstd::string::*;

verus! {

/// A client with its instance: where the control plane is, which instance it
/// created, and where the mock plane is.
pub struct Client {
    control_plane_url: String,
    instance: InstanceId,
    mock_url: String,
}

/// The view of a [`Client`].
pub struct ClientView {
    pub control_plane_url: Seq<char>,
    pub instance: Seq<char>,
    pub mock_url: Seq<char>,
}

impl View for Client {
    type V = ClientView;

    closed spec fn view(&self) -> ClientView {
        ClientView {
            control_plane_url: self.control_plane_url@,
            instance: self.instance@,
            mock_url: self.mock_url@,
        }
    }
}

/// What the failure to create an instance means to the caller: no
/// connection where there was none, else no instance.
pub open spec fn creation_error<E>(error: ClientNetworkError<E>) -> ClientError {
    match error {
        ClientNetworkError::FailedToConnectToMockServer => ClientError::FailedToConnectToMockServer,
        _ => ClientError::FailedToCreateTestInstance,
    }
}

/// What the failure to install a rule means to the caller: the instance is
/// gone where the control plane said so, else there was no connection.
pub open spec fn install_error(error: ClientNetworkError<InstallError>) -> ClientError {
    match error {
        ClientNetworkError::Response(InstallError::InstanceNotFound)
            => ClientError::InstanceNoLongerValid,
        _ => ClientError::FailedToConnectToMockServer,
    }
}

impl Client {
    /// The client for the instance that the control plane at the given URL
    /// created; `created` is what came of asking it to.
    pub fn new(
        control_plane_url: &str,
        created: Result<InstanceResponse, ClientNetworkError<InstanceResponse>>,
    ) -> (client: Result<Client, ClientError>)
        ensures
            match created {
                Ok(response) => client matches Ok(made) && made@ == (ClientView {
                    control_plane_url: control_plane_url@,
                    instance: response@.instance,
                    mock_url: response@.url,
                }),
                Err(error) => client matches Err(failed) && failed == creation_error(error),
            },
    {
        match created {
            Ok(response) => Ok(
                Client {
                    control_plane_url: control_plane_url.to_owned(),
                    instance: response.instance,
                    mock_url: response.url,
                },
            ),
            Err(ClientNetworkError::FailedToConnectToMockServer) => Err(
                ClientError::FailedToConnectToMockServer,
            ),
            Err(_) => Err(ClientError::FailedToCreateTestInstance),
        }
    }

    /// Starts a rule with what `when` collects in a fresh [`WhenBuilder`].
    pub fn when<F>(&self, when: F) -> (builder: MockBuilder<'_, WhenRules, Client>) where
        F: FnOnce(WhenBuilder) -> WhenBuilder,

        requires
            forall|fresh: WhenBuilder| fresh@ == no_constraints() ==> when.requires((fresh,)),
        ensures
            builder.client() == self,
            exists|fresh: WhenBuilder, collected: WhenBuilder|
                fresh@ == no_constraints() && when.ensures((fresh,), collected)
                    && builder.state()@ == collected@,
    {
        let fresh = WhenBuilder::default();
        let collected = when(fresh);
        MockBuilder::new(self, collected.build())
    }

    /// Where the mock plane listens.
    pub fn url(&self) -> (url: String)
        ensures
            url@ == self@.mock_url,
    {
        self.mock_url.clone()
    }

    /// Where the control plane listens.
    pub fn control_plane_url(&self) -> (url: &str)
        ensures
            url@ == self@.control_plane_url,
    {
        self.control_plane_url.as_str()
    }

    /// What came of sending a command to the control plane.
    pub fn command_outcome(sent: Result<InstallResponse, ClientNetworkError<InstallError>>) -> (done:
        Result<(), ClientError>)
        ensures
            done == match sent {
                Ok(_) => Ok::<(), ClientError>(()),
                Err(error) => Err::<(), ClientError>(install_error(error)),
            },
    {
        match sent {
            Ok(_) => Ok(()),
            Err(ClientNetworkError::Response(InstallError::InstanceNotFound)) => Err(
                ClientError::InstanceNoLongerValid,
            ),
            Err(_) => Err(ClientError::FailedToConnectToMockServer),
        }
    }
}

impl MockClient for Client {
    fn instance(&self) -> (id: &InstanceId)
        ensures
            id@ == self@.instance,
    {
        &self.instance
    }
}

} // verus!
