//! The reader of gRPC service definitions.
//!
//! Proto files are not read yet. Every input gives the description of one
//! fixed service, the user service, with two sample types.

use vstd::prelude::*;
use crate::error::GeneratorError;
use crate::parsers::sample::{is_sample_type, sample_type};
use crate::text::{chars_of, texts};
use crate::types::{
    ApiSpec, BaseShape, HttpMethod, Operation, Response, TypeReference,
};

verus! {

/// A method of a service: its name, the names of its request and response
/// messages, and what it does.
pub struct RpcMethod {
    pub name: Seq<char>,
    pub request: Seq<char>,
    pub response: Seq<char>,
    pub description: Seq<char>,
}

/// The number of methods of the user service.
pub open spec fn user_service_size() -> int {
    17
}

/// The methods of the user service, in order.
pub open spec fn user_service_method(i: int) -> RpcMethod {
    if i == 0 {
        RpcMethod {
            name: "RegisterUser"@,
            request: "RegisterUserRequest"@,
            response: "RegisterUserResponse"@,
            description: "Register a new user account"@,
        }
    } else if i == 1 {
        RpcMethod {
            name: "LoginUser"@,
            request: "LoginUserRequest"@,
            response: "LoginUserResponse"@,
            description: "Authenticate a user and create session"@,
        }
    } else if i == 2 {
        RpcMethod {
            name: "RefreshToken"@,
            request: "RefreshTokenRequest"@,
            response: "RefreshTokenResponse"@,
            description: "Refresh authentication token"@,
        }
    } else if i == 3 {
        RpcMethod {
            name: "LogoutUser"@,
            request: "LogoutUserRequest"@,
            response: "Empty"@,
            description: "Logout user and invalidate session"@,
        }
    } else if i == 4 {
        RpcMethod {
            name: "GetUser"@,
            request: "GetUserRequest"@,
            response: "GetUserResponse"@,
            description: "Get user profile by ID"@,
        }
    } else if i == 5 {
        RpcMethod {
            name: "GetCurrentUser"@,
            request: "Empty"@,
            response: "GetUserResponse"@,
            description: "Get current authenticated user profile"@,
        }
    } else if i == 6 {
        RpcMethod {
            name: "UpdateUser"@,
            request: "UpdateUserRequest"@,
            response: "UpdateUserResponse"@,
            description: "Update user profile information"@,
        }
    } else if i == 7 {
        RpcMethod {
            name: "DeleteUser"@,
            request: "DeleteUserRequest"@,
            response: "Empty"@,
            description: "Delete user account"@,
        }
    } else if i == 8 {
        RpcMethod {
            name: "ListUsers"@,
            request: "ListUsersRequest"@,
            response: "ListUsersResponse"@,
            description: "List users with pagination and filtering"@,
        }
    } else if i == 9 {
        RpcMethod {
            name: "ChangePassword"@,
            request: "ChangePasswordRequest"@,
            response: "Empty"@,
            description: "Change user password"@,
        }
    } else if i == 10 {
        RpcMethod {
            name: "ResetPassword"@,
            request: "ResetPasswordRequest"@,
            response: "Empty"@,
            description: "Reset user password"@,
        }
    } else if i == 11 {
        RpcMethod {
            name: "SendVerificationEmail"@,
            request: "SendVerificationEmailRequest"@,
            response: "Empty"@,
            description: "Send email verification"@,
        }
    } else if i == 12 {
        RpcMethod {
            name: "VerifyEmail"@,
            request: "VerifyEmailRequest"@,
            response: "Empty"@,
            description: "Verify email address"@,
        }
    } else if i == 13 {
        RpcMethod {
            name: "ListUserSessions"@,
            request: "ListUserSessionsRequest"@,
            response: "ListUserSessionsResponse"@,
            description: "List user active sessions"@,
        }
    } else if i == 14 {
        RpcMethod {
            name: "RevokeSession"@,
            request: "RevokeSessionRequest"@,
            response: "Empty"@,
            description: "Revoke a user session"@,
        }
    } else if i == 15 {
        RpcMethod {
            name: "GetUserPreferences"@,
            request: "GetUserPreferencesRequest"@,
            response: "GetUserPreferencesResponse"@,
            description: "Get user preferences"@,
        }
    } else {
        RpcMethod {
            name: "UpdateUserPreferences"@,
            request: "UpdateUserPreferencesRequest"@,
            response: "UpdateUserPreferencesResponse"@,
            description: "Update user preferences"@,
        }
    }
}

/// Whether `op` is the operation of the user service's method `m`: a POST
/// to the method's path that takes the request message and answers 200
/// with the response message.
pub open spec fn is_rpc_operation(op: Operation, m: RpcMethod) -> bool {
    &&& op.id@ == "UserService_"@ + m.name
    &&& op.name@ == m.name
    &&& op.description matches Some(d) && d@ == m.description
    &&& op.method == HttpMethod::Post
    &&& op.path@ == "/userservice.v1.UserService/"@ + m.name
    &&& op.parameters@.len() == 0
    &&& op.request_body matches Some(t) && t@ == TypeReference::plain(BaseShape::Object(m.request))
    &&& op.responses@.len() == 1
    &&& op.responses@[0].status_code == Some(200u16)
    &&& op.responses@[0].description@ == "gRPC response"@
    &&& op.responses@[0].content_type@ == "application/grpc"@
    &&& op.responses@[0].data_type matches Some(t) && t@ == TypeReference::plain(
        BaseShape::Object(m.response),
    )
    &&& op.responses@[0].headers@.len() == 0
    &&& texts(op.tags@) == seq!["UserService"@]
    &&& !op.deprecated
    &&& op.cache_config is None
}

/// Whether `spec` describes the user service.
pub open spec fn is_user_service(spec: ApiSpec) -> bool {
    &&& spec.name@ == "UserService gRPC API"@
    &&& spec.version@ == "1.0.0"@
    &&& spec.description matches Some(d) && d@ == "Generated from UserService gRPC proto files"@
    &&& spec.base_url is None
    &&& spec.authentication is None
    &&& spec.operations@.len() == user_service_size()
    &&& forall|i: int|
        0 <= i < user_service_size() ==> is_rpc_operation(
            #[trigger] spec.operations@[i],
            user_service_method(i),
        )
    &&& spec.types@.len() == 2
    &&& is_sample_type(
        spec.types@[0],
        "SampleRequest"@,
        "Sample gRPC request"@,
        "message"@,
        "Request message"@,
        true,
        false,
    )
    &&& is_sample_type(
        spec.types@[1],
        "SampleResponse"@,
        "Sample gRPC response"@,
        "result"@,
        "Response result"@,
        true,
        true,
    )
    &&& !spec.types@[0].additional_properties
    &&& !spec.types@[1].additional_properties
}

/// Whether the file at `path` is a proto file: its extension is `proto`.
pub open spec fn has_proto_extension(path: Seq<char>) -> bool {
    let n = path.len() as int;
    n > 6 && path[n - 6] == '.' && path[n - 5] == 'p' && path[n - 4] == 'r' && path[n - 3] == 'o'
        && path[n - 2] == 't' && path[n - 1] == 'o' && path[n - 7] != '/'
}

fn rpc_operation(name: &str, request: &str, response: &str, description: &str) -> (op: Operation)
    ensures
        is_rpc_operation(
            op,
            RpcMethod {
                name: name@,
                request: request@,
                response: response@,
                description: description@,
            },
        ),
{
    let mut id = String::from_str("UserService_");
    id.append(name);
    let mut path = String::from_str("/userservice.v1.UserService/");
    path.append(name);
    let mut responses: Vec<Response> = Vec::new();
    responses.push(
        Response {
            status_code: Some(200),
            description: String::from_str("gRPC response"),
            content_type: String::from_str("application/grpc"),
            data_type: Some(TypeReference::object(String::from_str(response))),
            headers: Vec::new(),
        },
    );
    let mut tags: Vec<String> = Vec::new();
    tags.push(String::from_str("UserService"));
    assert(texts(tags@) =~= seq!["UserService"@]);
    Operation {
        id,
        name: String::from_str(name),
        description: Some(String::from_str(description)),
        method: HttpMethod::Post,
        path,
        parameters: Vec::new(),
        request_body: Some(TypeReference::object(String::from_str(request))),
        responses,
        tags,
        deprecated: false,
        cache_config: None,
    }
}

/// Reads gRPC service definitions.
#[derive(Debug, Clone, Copy, PartialEq, Eq, Structural)]
pub struct GrpcParser;

impl GrpcParser {
    pub fn new() -> (r: GrpcParser) {
        GrpcParser
    }

    /// Whether the file at `path` is a proto file.
    pub fn is_proto_file(path: &str) -> (r: bool)
        ensures
            r == has_proto_extension(path@),
    {
        let chars = chars_of(path);
        let n = chars.len();
        n > 6 && chars[n - 6] == '.' && chars[n - 5] == 'p' && chars[n - 4] == 'r' && chars[n
            - 3] == 'o' && chars[n - 2] == 't' && chars[n - 1] == 'o' && chars[n - 7] != '/'
    }

    /// The API that the proto files at the given paths describe. For now
    /// that is the user service, whatever the files hold.
    pub fn parse(&self, proto_files: &Vec<String>) -> (r: Result<ApiSpec, GeneratorError>)
        ensures
            r matches Ok(spec) && is_user_service(spec),
    {
        let mut api_spec = ApiSpec::new(
            String::from_str("UserService gRPC API"),
            String::from_str("1.0.0"),
        );
        api_spec.description = Some(String::from_str("Generated from UserService gRPC proto files"));
        api_spec.add_operation(rpc_operation(
            "RegisterUser",
            "RegisterUserRequest",
            "RegisterUserResponse",
            "Register a new user account",
        ));
        api_spec.add_operation(rpc_operation(
            "LoginUser",
            "LoginUserRequest",
            "LoginUserResponse",
            "Authenticate a user and create session",
        ));
        api_spec.add_operation(rpc_operation(
            "RefreshToken",
            "RefreshTokenRequest",
            "RefreshTokenResponse",
            "Refresh authentication token",
        ));
        api_spec.add_operation(rpc_operation(
            "LogoutUser",
            "LogoutUserRequest",
            "Empty",
            "Logout user and invalidate session",
        ));
        api_spec.add_operation(rpc_operation(
            "GetUser",
            "GetUserRequest",
            "GetUserResponse",
            "Get user profile by ID",
        ));
        api_spec.add_operation(rpc_operation(
            "GetCurrentUser",
            "Empty",
            "GetUserResponse",
            "Get current authenticated user profile",
        ));
        api_spec.add_operation(rpc_operation(
            "UpdateUser",
            "UpdateUserRequest",
            "UpdateUserResponse",
            "Update user profile information",
        ));
        api_spec.add_operation(rpc_operation(
            "DeleteUser",
            "DeleteUserRequest",
            "Empty",
            "Delete user account",
        ));
        api_spec.add_operation(rpc_operation(
            "ListUsers",
            "ListUsersRequest",
            "ListUsersResponse",
            "List users with pagination and filtering",
        ));
        api_spec.add_operation(rpc_operation(
            "ChangePassword",
            "ChangePasswordRequest",
            "Empty",
            "Change user password",
        ));
        api_spec.add_operation(rpc_operation(
            "ResetPassword",
            "ResetPasswordRequest",
            "Empty",
            "Reset user password",
        ));
        api_spec.add_operation(rpc_operation(
            "SendVerificationEmail",
            "SendVerificationEmailRequest",
            "Empty",
            "Send email verification",
        ));
        api_spec.add_operation(rpc_operation(
            "VerifyEmail",
            "VerifyEmailRequest",
            "Empty",
            "Verify email address",
        ));
        api_spec.add_operation(rpc_operation(
            "ListUserSessions",
            "ListUserSessionsRequest",
            "ListUserSessionsResponse",
            "List user active sessions",
        ));
        api_spec.add_operation(rpc_operation(
            "RevokeSession",
            "RevokeSessionRequest",
            "Empty",
            "Revoke a user session",
        ));
        api_spec.add_operation(rpc_operation(
            "GetUserPreferences",
            "GetUserPreferencesRequest",
            "GetUserPreferencesResponse",
            "Get user preferences",
        ));
        api_spec.add_operation(rpc_operation(
            "UpdateUserPreferences",
            "UpdateUserPreferencesRequest",
            "UpdateUserPreferencesResponse",
            "Update user preferences",
        ));
        api_spec.add_type(
            sample_type("SampleRequest", "Sample gRPC request", "message", "Request message", true, false),
        );
        api_spec.add_type(
            sample_type("SampleResponse", "Sample gRPC response", "result", "Response result", true, true),
        );
        Ok(api_spec)
    }
}

impl Default for GrpcParser {
    fn default() -> (r: GrpcParser) {
        GrpcParser
    }
}

} // verus!
